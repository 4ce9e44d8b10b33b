//! World-axes debug gizmo: while a two-key chord is held, three unit-length
//! arrows are drawn from the origin along the world axes, colored red,
//! green and blue.

use vstd::prelude::*;

verus! {

/// One of the three world axes.
#[derive(Clone, Copy, Debug, PartialEq, Eq, Structural)]
pub enum WorldAxis {
    X,
    Y,
    Z,
}

/// The fixed palette of the gizmo arrows.
#[derive(Clone, Copy, Debug, PartialEq, Eq, Structural)]
pub enum ArrowColor {
    Red,
    Green,
    Blue,
}

/// The unit direction of an axis, as integer components.
pub open spec fn axis_direction_spec(a: WorldAxis) -> (int, int, int) {
    match a {
        WorldAxis::X => (1int, 0int, 0int),
        WorldAxis::Y => (0int, 1int, 0int),
        WorldAxis::Z => (0int, 0int, 1int),
    }
}

/// The color each axis arrow is drawn in: red, green and blue for x, y
/// and z respectively.
pub open spec fn axis_color_spec(a: WorldAxis) -> ArrowColor {
    match a {
        WorldAxis::X => ArrowColor::Red,
        WorldAxis::Y => ArrowColor::Green,
        WorldAxis::Z => ArrowColor::Blue,
    }
}

/// The gizmo draws exactly while both keys of the chord are held.
pub fn gizmo_active(first_held: bool, second_held: bool) -> (r: bool)
    ensures
        r == (first_held && second_held),
{
    first_held && second_held
}

/// The unit direction an axis arrow points along, from the origin.
pub fn axis_direction(a: WorldAxis) -> (d: (i64, i64, i64))
    ensures
        (d.0 as int, d.1 as int, d.2 as int) == axis_direction_spec(a),
{
    match a {
        WorldAxis::X => (1, 0, 0),
        WorldAxis::Y => (0, 1, 0),
        WorldAxis::Z => (0, 0, 1),
    }
}

/// The color an axis arrow is drawn in.
pub fn axis_color(a: WorldAxis) -> (c: ArrowColor)
    ensures
        c == axis_color_spec(a),
{
    match a {
        WorldAxis::X => ArrowColor::Red,
        WorldAxis::Y => ArrowColor::Green,
        WorldAxis::Z => ArrowColor::Blue,
    }
}

/// The three axes in drawing order: x, then y, then z.
pub fn all_axes() -> (v: Vec<WorldAxis>)
    ensures
        v@ =~= seq![WorldAxis::X, WorldAxis::Y, WorldAxis::Z],
{
    let mut v: Vec<WorldAxis> = Vec::new();
    v.push(WorldAxis::X);
    v.push(WorldAxis::Y);
    v.push(WorldAxis::Z);
    v
}

} // verus!
