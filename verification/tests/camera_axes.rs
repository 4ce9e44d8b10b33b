use streamville::axes::{all_axes, axis_color, axis_direction, gizmo_active, ArrowColor, WorldAxis};
use streamville::camera::{pan_delta, CamPose};

#[test]
fn orbit_turns_pixels_into_yaw_and_pitch() {
    // A one-pixel (1000 milli-pixel) delta turns 0.0025 rad: 2_500_000
    // nano-radians.
    let mut pose = CamPose {
        yaw_nano: 0,
        pitch_nano: 0,
        roll_nano: 7,
    };
    pose.orbit(1_000, -2_000);
    assert_eq!(pose.yaw_nano, 2_500_000);
    assert_eq!(pose.pitch_nano, -5_000_000);
    assert_eq!(pose.roll_nano, 7);
}

#[test]
fn orbit_accumulates_across_events() {
    let mut pose = CamPose {
        yaw_nano: 1_000,
        pitch_nano: -1_000,
        roll_nano: 0,
    };
    pose.orbit(400, 400);
    pose.orbit(-100, 600);
    assert_eq!(pose.yaw_nano, 1_000 + 300 * 2_500);
    assert_eq!(pose.pitch_nano, -1_000 + 1_000 * 2_500);
}

#[test]
fn scroll_zoom_is_a_documented_no_op() {
    let mut pose = CamPose {
        yaw_nano: 3,
        pitch_nano: 4,
        roll_nano: 5,
    };
    pose.scroll_zoom();
    assert_eq!(pose.yaw_nano, 3);
    assert_eq!(pose.pitch_nano, 4);
    assert_eq!(pose.roll_nano, 5);
}

#[test]
fn pan_inverts_x_and_scales() {
    // A one-pixel delta pans 0.01 units: 10_000 micro-units, with x
    // inverted.
    let (u, v) = pan_delta(1_000, 2_000);
    assert_eq!(u, -10_000);
    assert_eq!(v, 20_000);
}

#[test]
fn gizmo_needs_both_keys() {
    assert!(gizmo_active(true, true));
    assert!(!gizmo_active(true, false));
    assert!(!gizmo_active(false, true));
    assert!(!gizmo_active(false, false));
}

#[test]
fn axes_point_along_the_world_axes() {
    assert_eq!(axis_direction(WorldAxis::X), (1, 0, 0));
    assert_eq!(axis_direction(WorldAxis::Y), (0, 1, 0));
    assert_eq!(axis_direction(WorldAxis::Z), (0, 0, 1));
}

#[test]
fn axes_are_red_green_blue() {
    assert_eq!(axis_color(WorldAxis::X), ArrowColor::Red);
    assert_eq!(axis_color(WorldAxis::Y), ArrowColor::Green);
    assert_eq!(axis_color(WorldAxis::Z), ArrowColor::Blue);
}

#[test]
fn axes_are_drawn_in_order() {
    let axes = all_axes();
    assert_eq!(axes, vec![WorldAxis::X, WorldAxis::Y, WorldAxis::Z]);
}
