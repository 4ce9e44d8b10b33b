//! Cursor-trail lifecycle: a quad is spawned at the pointer position when a
//! pointer-move event passes the debounce and minimum-distance gates, and is
//! destroyed once its fixed time-to-live has elapsed. A monotonically
//! increasing depth bias keeps overlapping quads in a stable stacking order.
//!
//! Units: screen coordinates are in milli-pixels, time in milliseconds,
//! transparency in micro-units (1_000_000 = 1.0), and the depth bias in
//! centi-units (100 = 1.0). Distances between spawn points are compared
//! squared, so no square root is ever taken.

use vstd::prelude::*;

use crate::seq_util::lemma_filter_push;

verus! {

/// Largest screen coordinate magnitude the system accepts, in milli-pixels
/// (about half a million pixels); keeps squared distances inside `i64`.
pub const COORD_LIMIT_MP: i64 = 0x2000_0000;

/// Largest timestamp the system accepts, in milliseconds; keeps the
/// time-to-live test inside `u64`.
pub const TIME_LIMIT_MS: u64 = 0x2000_0000_0000_0000;

/// A quad lives this long after its spawn, in milliseconds: 2 seconds.
pub const QUAD_TTL_MS: u64 = 2000;

/// Transparency given to every trail quad at spawn time, in micro-units
/// (0.25); it never decays afterwards.
pub const QUAD_ALPHA_MICRO: i64 = 250_000;

/// The spawn gate parameters. With both at zero, every pointer-move event
/// spawns a quad.
pub struct TrailConfig {
    /// A new quad may spawn only this many milliseconds after the last one.
    pub debounce_ms: u64,
    /// A new quad may spawn only this far from the last one: the squared
    /// distance in milli-pixels squared.
    pub min_dist_sq: i64,
}

/// Where and when the last quad was spawned.
#[derive(Clone, Copy, Debug)]
pub struct SpawnRecord {
    /// Pointer x at the spawn, in milli-pixels.
    pub x_mp: i64,
    /// Pointer y at the spawn, in milli-pixels.
    pub y_mp: i64,
    /// Application time elapsed at the spawn, in milliseconds.
    pub elapsed_ms: u64,
}

/// One live trail quad. Everything is fixed at spawn time; only the passage
/// of time removes it.
#[derive(Clone, Copy, Debug)]
pub struct TrailQuad {
    /// Pointer x at the spawn, in milli-pixels.
    pub x_mp: i64,
    /// Pointer y at the spawn, in milli-pixels.
    pub y_mp: i64,
    /// Application time elapsed at the spawn, in milliseconds.
    pub spawn_elapsed_ms: u64,
    /// Depth bias assigned at the spawn, in centi-units.
    pub depth_bias_centi: u64,
}

/// The trail system's whole state.
pub struct TrailField {
    /// The last spawn, if any quad has ever spawned.
    pub last_spawn: Option<SpawnRecord>,
    /// Depth bias the next quad will get, in centi-units; grows by one per
    /// spawn so overlapping quads never fight for depth.
    pub next_depth_bias_centi: u64,
    /// The live quads, oldest first.
    pub quads: Vec<TrailQuad>,
}

/// Squared distance between two points, exact in integers.
pub open spec fn dist_sq(x1: int, y1: int, x2: int, y2: int) -> int {
    (x2 - x1) * (x2 - x1) + (y2 - y1) * (y2 - y1)
}

/// The spawn gate: with no prior spawn a quad always spawns; otherwise both
/// the debounce and the minimum-distance gates must pass.
pub open spec fn spawn_gate(
    last: Option<SpawnRecord>,
    x_mp: int,
    y_mp: int,
    now_ms: int,
    cfg: TrailConfig,
) -> bool {
    match last {
        Option::None => true,
        Option::Some(r) => now_ms - r.elapsed_ms >= cfg.debounce_ms && dist_sq(
            r.x_mp as int,
            r.y_mp as int,
            x_mp,
            y_mp,
        ) >= cfg.min_dist_sq,
    }
}

/// A quad survives the cleanup pass at time `now_ms` exactly when its
/// time-to-live has not elapsed: it is removed once `now - spawn > 2.0` s,
/// and not before.
pub open spec fn quad_alive(q: TrailQuad, now_ms: int) -> bool {
    now_ms <= q.spawn_elapsed_ms + QUAD_TTL_MS
}

/// The quads the cleanup pass at `now_ms` keeps: those whose time-to-live
/// has not elapsed, in order.
pub open spec fn surviving_quads(s: Seq<TrailQuad>, now_ms: int) -> Seq<TrailQuad> {
    s.filter(|q: TrailQuad| quad_alive(q, now_ms))
}

/// A coordinate pair the system accepts.
pub open spec fn coords_ok(x_mp: int, y_mp: int) -> bool {
    -COORD_LIMIT_MP <= x_mp <= COORD_LIMIT_MP && -COORD_LIMIT_MP <= y_mp <= COORD_LIMIT_MP
}

/// A quad whose position and timestamp are within the accepted limits.
pub open spec fn quad_ok(q: TrailQuad) -> bool {
    coords_ok(q.x_mp as int, q.y_mp as int) && q.spawn_elapsed_ms <= TIME_LIMIT_MS
}

impl TrailField {
    /// Every recorded position and timestamp is within the accepted limits.
    pub open spec fn wf(self) -> bool {
        &&& match self.last_spawn {
            Option::None => true,
            Option::Some(r) => coords_ok(r.x_mp as int, r.y_mp as int) && r.elapsed_ms
                <= TIME_LIMIT_MS,
        }
        &&& forall|i: int| 0 <= i < self.quads@.len() ==> quad_ok(#[trigger] self.quads@[i])
    }

    /// An empty field: no spawn yet, zero depth bias, no quads.
    pub fn new() -> (r: TrailField)
        ensures
            r.last_spawn is None,
            r.next_depth_bias_centi == 0,
            r.quads@ =~= Seq::<TrailQuad>::empty(),
            r.wf(),
    {
        TrailField { last_spawn: None, next_depth_bias_centi: 0, quads: Vec::new() }
    }

    /// Handle the latest pointer-move event of a frame. If the gates pass, a
    /// quad is spawned at the pointer position, stamped with the current
    /// elapsed time and the next depth bias, and the event becomes the new
    /// last spawn; otherwise nothing changes. Returns whether a quad spawned.
    pub fn spawn_on_move(
        &mut self,
        cfg: &TrailConfig,
        x_mp: i64,
        y_mp: i64,
        now_ms: u64,
    ) -> (spawned: bool)
        requires
            old(self).wf(),
            coords_ok(x_mp as int, y_mp as int),
            now_ms <= TIME_LIMIT_MS,
            match old(self).last_spawn {
                Option::None => true,
                Option::Some(r) => r.elapsed_ms <= now_ms,
            },
            old(self).quads@.len() < usize::MAX,
            old(self).next_depth_bias_centi < u64::MAX,
        ensures
            spawned == spawn_gate(
                old(self).last_spawn,
                x_mp as int,
                y_mp as int,
                now_ms as int,
                *cfg,
            ),
            spawned ==> final(self).last_spawn == Some(
                SpawnRecord { x_mp, y_mp, elapsed_ms: now_ms },
            ),
            spawned ==> final(self).quads@ =~= old(self).quads@.push(
                TrailQuad {
                    x_mp,
                    y_mp,
                    spawn_elapsed_ms: now_ms,
                    depth_bias_centi: old(self).next_depth_bias_centi,
                },
            ),
            spawned ==> final(self).next_depth_bias_centi == old(self).next_depth_bias_centi + 1,
            !spawned ==> final(self).last_spawn == old(self).last_spawn,
            !spawned ==> final(self).quads@ =~= old(self).quads@,
            !spawned ==> final(self).next_depth_bias_centi == old(self).next_depth_bias_centi,
            final(self).wf(),
    {
        let gate = match &self.last_spawn {
            None => true,
            Some(r) => {
                let time_since = now_ms - r.elapsed_ms;
                let dx = x_mp - r.x_mp;
                let dy = y_mp - r.y_mp;
                proof {
                    assert(dx * dx <= 0x4000_0000 * 0x4000_0000 && dx * dx >= 0) by (nonlinear_arith)
                        requires -0x4000_0000 <= dx <= 0x4000_0000;
                    assert(dy * dy <= 0x4000_0000 * 0x4000_0000 && dy * dy >= 0) by (nonlinear_arith)
                        requires -0x4000_0000 <= dy <= 0x4000_0000;
                }
                let d2 = dx * dx + dy * dy;
                time_since >= cfg.debounce_ms && d2 >= cfg.min_dist_sq
            },
        };
        if gate {
            self.last_spawn = Some(SpawnRecord { x_mp, y_mp, elapsed_ms: now_ms });
            self.quads.push(
                TrailQuad {
                    x_mp,
                    y_mp,
                    spawn_elapsed_ms: now_ms,
                    depth_bias_centi: self.next_depth_bias_centi,
                },
            );
            self.next_depth_bias_centi = self.next_depth_bias_centi + 1;
        }
        gate
    }

    /// Per-frame cleanup: destroy exactly the quads whose time-to-live has
    /// elapsed at `now_ms`, keeping the others in order. The last-spawn
    /// record and the depth bias are untouched.
    pub fn despawn_expired(&mut self, now_ms: u64)
        requires
            old(self).wf(),
        ensures
            final(self).last_spawn == old(self).last_spawn,
            final(self).next_depth_bias_centi == old(self).next_depth_bias_centi,
            final(self).quads@ =~= surviving_quads(old(self).quads@, now_ms as int),
            final(self).wf(),
    {
        let ghost orig = self.quads@;
        let mut kept: Vec<TrailQuad> = Vec::new();
        let mut i: usize = 0;
        while i < self.quads.len()
            invariant
                self.quads@ == orig,
                0 <= i <= orig.len(),
                forall|j: int| 0 <= j < orig.len() ==> quad_ok(#[trigger] orig[j]),
                kept@ =~= orig.take(i as int).filter(|q: TrailQuad| quad_alive(q, now_ms as int)),
                forall|j: int| 0 <= j < kept@.len() ==> quad_ok(#[trigger] kept@[j]),
            decreases orig.len() - i,
        {
            let q = self.quads[i];
            proof {
                assert(orig.take(i as int + 1) =~= orig.take(i as int).push(orig[i as int]));
                lemma_filter_push(
                    orig.take(i as int),
                    orig[i as int],
                    |q: TrailQuad| quad_alive(q, now_ms as int),
                );
            }
            if now_ms <= q.spawn_elapsed_ms + QUAD_TTL_MS {
                kept.push(q);
            }
            i = i + 1;
        }
        proof {
            assert(orig.take(orig.len() as int) =~= orig);
        }
        self.quads = kept;
    }
}

/// A quad is removed by the cleanup pass at `now_ms` if and only if its
/// time-to-live has elapsed: every survivor was spawned within the
/// time-to-live, and every quad spawned within it survives — removal comes
/// on the first check past the deadline, and never before.
pub proof fn lemma_removed_iff_expired(s: Seq<TrailQuad>, now_ms: int)
    ensures
        forall|i: int| 0 <= i < surviving_quads(s, now_ms).len() ==> quad_alive(
            #[trigger] surviving_quads(s, now_ms)[i],
            now_ms,
        ),
        forall|i: int| 0 <= i < s.len() && quad_alive(s[i], now_ms) ==> surviving_quads(
            s,
            now_ms,
        ).contains(#[trigger] s[i]),
{
    broadcast use vstd::seq_lib::group_filter_ensures;

}

/// Largest coordinate the debug grid walker accepts, in milli-pixels.
pub const GRID_LIMIT_MP: u64 = 0x100_0000_0000;

/// Cursor position of the debug grid walker, which sweeps a quad across the
/// window one fixed increment at a time, wrapping at the right and top
/// edges.
#[derive(Clone, Copy, Debug)]
pub struct GridWalker {
    /// Current x, in milli-pixels.
    pub x_mp: u64,
    /// Current y, in milli-pixels.
    pub y_mp: u64,
}

/// The walker's next x: step right by the increment, wrapping to zero past
/// the right edge.
pub open spec fn grid_step_x(x: int, max_x: int, inc: int) -> int {
    if x + inc > max_x {
        0
    } else {
        x + inc
    }
}

/// The walker's next y: step up by the increment when x wrapped, then wrap
/// to zero past the top edge.
pub open spec fn grid_step_y(x: int, y: int, max_x: int, max_y: int, inc: int) -> int {
    let y1 = if x + inc > max_x {
        y + inc
    } else {
        y
    };
    if y1 > max_y {
        0
    } else {
        y1
    }
}

impl GridWalker {
    /// The walker starts at the window origin.
    pub fn new() -> (r: GridWalker)
        ensures
            r.x_mp == 0,
            r.y_mp == 0,
    {
        GridWalker { x_mp: 0, y_mp: 0 }
    }

    /// One debug step: report the spawn position — the current position
    /// pulled back by half an increment on both axes — then advance,
    /// wrapping at the edges.
    pub fn step(&mut self, max_x_mp: u64, max_y_mp: u64, inc_mp: u64) -> (t: (i64, i64))
        requires
            old(self).x_mp <= GRID_LIMIT_MP,
            old(self).y_mp <= GRID_LIMIT_MP,
            max_x_mp <= GRID_LIMIT_MP,
            max_y_mp <= GRID_LIMIT_MP,
            inc_mp <= GRID_LIMIT_MP,
        ensures
            t.0 == old(self).x_mp - inc_mp / 2,
            t.1 == old(self).y_mp - inc_mp / 2,
            final(self).x_mp == grid_step_x(old(self).x_mp as int, max_x_mp as int, inc_mp as int),
            final(self).y_mp == grid_step_y(
                old(self).x_mp as int,
                old(self).y_mp as int,
                max_x_mp as int,
                max_y_mp as int,
                inc_mp as int,
            ),
            final(self).x_mp <= GRID_LIMIT_MP,
            final(self).y_mp <= GRID_LIMIT_MP,
    {
        let half = (inc_mp / 2) as i64;
        let t = ((self.x_mp as i64) - half, (self.y_mp as i64) - half);
        if self.x_mp + inc_mp > max_x_mp {
            self.x_mp = 0;
            self.y_mp = self.y_mp + inc_mp;
        } else {
            self.x_mp = self.x_mp + inc_mp;
        }
        if self.y_mp > max_y_mp {
            self.y_mp = 0;
        }
        t
    }
}

/// Convert a pointer position to world coordinates: the origin moves to the
/// window center and the y axis flips so that up is positive.
pub fn to_world(x_mp: i64, y_mp: i64, width_mp: u64, height_mp: u64) -> (r: (i64, i64))
    requires
        coords_ok(x_mp as int, y_mp as int),
        width_mp <= 2 * COORD_LIMIT_MP,
        height_mp <= 2 * COORD_LIMIT_MP,
    ensures
        r.0 == x_mp - width_mp / 2,
        r.1 == height_mp / 2 - y_mp,
{
    let half_w = (width_mp / 2) as i64;
    let half_h = (height_mp / 2) as i64;
    (x_mp - half_w, half_h - y_mp)
}

} // verus!
