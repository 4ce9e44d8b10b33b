//! Spiral bullet lifecycle: a fixed-rate spawner emits one bullet per tick,
//! headed along a spiral; every frame the live bullets advance along their
//! headings, their transparency is recomputed from their distance to the
//! origin, and fully transparent bullets are destroyed.
//!
//! Units: distance and transparency are in micro-units (1_000_000 = 1.0);
//! frame deltas are in milliseconds; heading angles are in sixteenths of a
//! radian, so a bullet's heading angle in radians is `spawn_index / 16`.

use vstd::prelude::*;

use crate::seq_util::lemma_filter_push;

verus! {

/// Full opacity, 1.0, in micro-units.
pub const ALPHA_FULL_MICRO: i64 = 1_000_000;

/// The fade rule's base: transparency is `3.5 - distance`, capped at 1.0.
pub const FADE_BASE_MICRO: i64 = 3_500_000;

/// Bullet speed: 0.8 units per second, i.e. 800 micro-units per millisecond.
pub const SPEED_MICRO_PER_MS: i64 = 800;

/// The spawner runs on a fixed timestep of 5 ms of simulated time: one
/// bullet per tick.
pub const SPAWN_TICK_MS: u64 = 5;

/// A live bullet. Its heading is fixed at spawn time; only the distance
/// traveled and the transparency change afterwards.
#[derive(Clone, Copy, Debug)]
pub struct Bullet {
    /// Index in the spawn sequence; the heading angle is this many
    /// sixteenths of a radian.
    pub spawn_index: u64,
    /// Distance from the origin along the heading, in micro-units.
    pub dist_micro: i64,
    /// Transparency in micro-units; 1_000_000 is fully opaque, values at or
    /// below zero are fully transparent. There is no lower clamp.
    pub alpha_micro: i64,
}

/// The bullet system's whole state: the spawn counter and the live bullets.
pub struct BulletField {
    /// Number of spawn ticks seen so far; also the next bullet's spawn index.
    pub counter: u64,
    /// The live bullets, oldest first.
    pub bullets: Vec<Bullet>,
}

/// Heading angle of the bullet with spawn index `i`, in sixteenths of a
/// radian: the angle in radians is `i / 16`.
pub open spec fn heading_sixteenths(i: int) -> int {
    i
}

/// The fade rule: transparency at distance `d` from the origin is
/// `min(1.0, 3.5 - d)`, all in micro-units. It may fall below zero.
pub open spec fn alpha_of_dist(d: int) -> int {
    if FADE_BASE_MICRO - d < ALPHA_FULL_MICRO {
        FADE_BASE_MICRO - d
    } else {
        ALPHA_FULL_MICRO as int
    }
}

/// A bullet survives the destroy pass exactly when it is not yet fully
/// transparent.
pub open spec fn bullet_live(b: Bullet) -> bool {
    b.alpha_micro > 0
}

/// The bullets the destroy pass keeps: those not yet fully transparent, in
/// order.
pub open spec fn surviving_bullets(s: Seq<Bullet>) -> Seq<Bullet> {
    s.filter(|b: Bullet| bullet_live(b))
}

/// A bullet after moving for `dt_ms` milliseconds along its heading.
pub open spec fn bullet_advanced(b: Bullet, dt_ms: int) -> Bullet {
    Bullet {
        spawn_index: b.spawn_index,
        dist_micro: (b.dist_micro + SPEED_MICRO_PER_MS * dt_ms) as i64,
        alpha_micro: b.alpha_micro,
    }
}

/// A bullet after the fade pass recomputed its transparency from its
/// current distance.
pub open spec fn bullet_faded(b: Bullet) -> Bullet {
    Bullet {
        spawn_index: b.spawn_index,
        dist_micro: b.dist_micro,
        alpha_micro: alpha_of_dist(b.dist_micro as int) as i64,
    }
}

impl BulletField {
    /// Distances never go negative: bullets spawn at the origin and only
    /// move outward.
    pub open spec fn wf(self) -> bool {
        forall|i: int| 0 <= i < self.bullets@.len() ==> #[trigger] self.bullets@[i].dist_micro >= 0
    }

    /// An empty field: no ticks seen, no bullets.
    pub fn new() -> (r: BulletField)
        ensures
            r.counter == 0,
            r.bullets@ =~= Seq::<Bullet>::empty(),
            r.wf(),
    {
        BulletField { counter: 0, bullets: Vec::new() }
    }

    /// One fixed-rate spawn tick: emit exactly one bullet at the origin,
    /// fully opaque, headed `counter` sixteenths of a radian around the
    /// spiral, and advance the counter. Runs once per tick, unconditionally,
    /// forever.
    pub fn spawn_tick(&mut self)
        requires
            old(self).counter < u64::MAX,
            old(self).bullets@.len() < usize::MAX,
        ensures
            final(self).counter == old(self).counter + 1,
            final(self).bullets@ =~= old(self).bullets@.push(
                Bullet {
                    spawn_index: old(self).counter,
                    dist_micro: 0,
                    alpha_micro: ALPHA_FULL_MICRO,
                },
            ),
            old(self).wf() ==> final(self).wf(),
    {
        let b = Bullet { spawn_index: self.counter, dist_micro: 0, alpha_micro: ALPHA_FULL_MICRO };
        self.bullets.push(b);
        self.counter = self.counter + 1;
    }

    /// Per-frame movement: every bullet advances along its fixed heading at
    /// constant speed, scaled by the frame delta.
    pub fn advance(&mut self, dt_ms: u32)
        requires
            old(self).wf(),
            forall|i: int| 0 <= i < old(self).bullets@.len()
                ==> #[trigger] old(self).bullets@[i].dist_micro + SPEED_MICRO_PER_MS * dt_ms
                    <= i64::MAX,
        ensures
            final(self).counter == old(self).counter,
            final(self).bullets@ =~= old(self).bullets@.map_values(
                |b: Bullet| bullet_advanced(b, dt_ms as int),
            ),
            final(self).wf(),
    {
        let ghost orig = self.bullets@;
        let mut moved: Vec<Bullet> = Vec::new();
        let mut i: usize = 0;
        while i < self.bullets.len()
            invariant
                self.bullets@ == orig,
                0 <= i <= orig.len(),
                forall|j: int| 0 <= j < orig.len() ==> #[trigger] orig[j].dist_micro >= 0,
                forall|j: int| 0 <= j < orig.len()
                    ==> #[trigger] orig[j].dist_micro + SPEED_MICRO_PER_MS * dt_ms <= i64::MAX,
                moved@ =~= orig.take(i as int).map_values(
                    |b: Bullet| bullet_advanced(b, dt_ms as int),
                ),
            decreases orig.len() - i,
        {
            let b = self.bullets[i];
            let nb = Bullet {
                spawn_index: b.spawn_index,
                dist_micro: b.dist_micro + SPEED_MICRO_PER_MS * (dt_ms as i64),
                alpha_micro: b.alpha_micro,
            };
            moved.push(nb);
            proof {
                assert(orig.take(i as int + 1) =~= orig.take(i as int).push(orig[i as int]));
                assert(orig.take(i as int + 1).map_values(
                    |b: Bullet| bullet_advanced(b, dt_ms as int),
                ) =~= orig.take(i as int).map_values(
                    |b: Bullet| bullet_advanced(b, dt_ms as int),
                ).push(bullet_advanced(orig[i as int], dt_ms as int)));
            }
            i = i + 1;
        }
        proof {
            assert(orig.take(orig.len() as int) =~= orig);
        }
        self.bullets = moved;
    }

    /// Per-frame fade: every bullet's transparency is recomputed from its
    /// current distance as `min(1.0, 3.5 - distance)`. Nothing else changes.
    pub fn fade(&mut self)
        requires
            old(self).wf(),
        ensures
            final(self).counter == old(self).counter,
            final(self).bullets@ =~= old(self).bullets@.map_values(
                |b: Bullet| bullet_faded(b),
            ),
            final(self).wf(),
    {
        let ghost orig = self.bullets@;
        let mut faded: Vec<Bullet> = Vec::new();
        let mut i: usize = 0;
        while i < self.bullets.len()
            invariant
                self.bullets@ == orig,
                0 <= i <= orig.len(),
                forall|j: int| 0 <= j < orig.len() ==> #[trigger] orig[j].dist_micro >= 0,
                faded@ =~= orig.take(i as int).map_values(|b: Bullet| bullet_faded(b)),
            decreases orig.len() - i,
        {
            let b = self.bullets[i];
            let raw = FADE_BASE_MICRO - b.dist_micro;
            let a = if raw < ALPHA_FULL_MICRO { raw } else { ALPHA_FULL_MICRO };
            let nb = Bullet {
                spawn_index: b.spawn_index,
                dist_micro: b.dist_micro,
                alpha_micro: a,
            };
            faded.push(nb);
            proof {
                assert(orig.take(i as int + 1) =~= orig.take(i as int).push(orig[i as int]));
                assert(orig.take(i as int + 1).map_values(|b: Bullet| bullet_faded(b))
                    =~= orig.take(i as int).map_values(|b: Bullet| bullet_faded(b)).push(
                    bullet_faded(orig[i as int]),
                ));
            }
            i = i + 1;
        }
        proof {
            assert(orig.take(orig.len() as int) =~= orig);
        }
        self.bullets = faded;
    }

    /// Per-frame destroy pass: remove exactly the bullets that are fully
    /// transparent (`alpha <= 0`), keeping the others in order.
    pub fn destroy(&mut self)
        requires
            old(self).wf(),
        ensures
            final(self).counter == old(self).counter,
            final(self).bullets@ =~= surviving_bullets(old(self).bullets@),
            final(self).wf(),
    {
        let ghost orig = self.bullets@;
        let mut kept: Vec<Bullet> = Vec::new();
        let mut i: usize = 0;
        while i < self.bullets.len()
            invariant
                self.bullets@ == orig,
                0 <= i <= orig.len(),
                forall|j: int| 0 <= j < orig.len() ==> #[trigger] orig[j].dist_micro >= 0,
                kept@ =~= orig.take(i as int).filter(|b: Bullet| bullet_live(b)),
                forall|j: int| 0 <= j < kept@.len() ==> #[trigger] kept@[j].dist_micro >= 0,
            decreases orig.len() - i,
        {
            let b = self.bullets[i];
            proof {
                assert(orig.take(i as int + 1) =~= orig.take(i as int).push(orig[i as int]));
                lemma_filter_push(orig.take(i as int), orig[i as int], |b: Bullet| bullet_live(b));
            }
            if b.alpha_micro > 0 {
                kept.push(b);
            }
            i = i + 1;
        }
        proof {
            assert(orig.take(orig.len() as int) =~= orig);
        }
        self.bullets = kept;
    }
}

/// What one whole frame does to the live bullets: they advance along their
/// headings, fade by distance, and the fully transparent ones are removed —
/// in that order, so removal depends on this frame's fade, not last frame's.
pub open spec fn frame_result(s: Seq<Bullet>, dt_ms: int) -> Seq<Bullet> {
    surviving_bullets(
        s.map_values(|b: Bullet| bullet_advanced(b, dt_ms)).map_values(
            |b: Bullet| bullet_faded(b),
        ),
    )
}

impl BulletField {
    /// One whole frame: movement, then the fade pass, then the destroy
    /// pass. The fade completes before the destroy pass, so a bullet is
    /// removed exactly when this frame's fade left it fully transparent.
    pub fn frame(&mut self, dt_ms: u32)
        requires
            old(self).wf(),
            forall|i: int| 0 <= i < old(self).bullets@.len()
                ==> #[trigger] old(self).bullets@[i].dist_micro + SPEED_MICRO_PER_MS * dt_ms
                    <= i64::MAX,
        ensures
            final(self).counter == old(self).counter,
            final(self).bullets@ =~= frame_result(old(self).bullets@, dt_ms as int),
            final(self).wf(),
    {
        self.advance(dt_ms);
        self.fade();
        self.destroy();
    }
}

/// A bullet is removed by the destroy pass if and only if its transparency
/// is at or below zero when the pass runs: every survivor is still partly
/// opaque, and every partly opaque bullet survives.
pub proof fn lemma_removed_iff_transparent(s: Seq<Bullet>)
    ensures
        forall|i: int| 0 <= i < surviving_bullets(s).len() ==> (#[trigger] surviving_bullets(
            s,
        )[i]).alpha_micro > 0,
        forall|i: int| 0 <= i < s.len() && s[i].alpha_micro > 0 ==> surviving_bullets(s).contains(
            #[trigger] s[i],
        ),
{
    broadcast use vstd::seq_lib::group_filter_ensures;

}

/// The fade rule is non-increasing in distance: a bullet farther from the
/// origin is never more opaque than a nearer one.
pub proof fn lemma_alpha_nonincreasing(d1: int, d2: int)
    requires
        d1 <= d2,
    ensures
        alpha_of_dist(d2) <= alpha_of_dist(d1),
{
}

/// Over a bullet's lifetime its transparency never rises: whatever a frame's
/// movement adds to the distance, the fade that follows leaves the
/// transparency at or below what it was — whether the bullet was fresh from
/// its spawn or faded in an earlier frame.
pub proof fn lemma_alpha_never_rises(b: Bullet, dt_ms: int)
    requires
        dt_ms >= 0,
        b.dist_micro >= 0,
        b.dist_micro + SPEED_MICRO_PER_MS * dt_ms <= i64::MAX,
        b.alpha_micro == ALPHA_FULL_MICRO || b.alpha_micro == alpha_of_dist(b.dist_micro as int),
    ensures
        bullet_faded(bullet_advanced(b, dt_ms)).alpha_micro <= b.alpha_micro,
{
    lemma_alpha_nonincreasing(
        b.dist_micro as int,
        b.dist_micro + SPEED_MICRO_PER_MS * dt_ms,
    );
}

/// Heading angles are strictly increasing in spawn index.
pub proof fn lemma_heading_strictly_increasing(i: int, j: int)
    requires
        i < j,
    ensures
        heading_sixteenths(i) < heading_sixteenths(j),
{
}

/// Consecutively spawned bullets differ in heading by exactly one sixteenth
/// of a radian.
pub proof fn lemma_heading_consecutive_step(i: int)
    ensures
        heading_sixteenths(i + 1) - heading_sixteenths(i) == 1,
{
}

} // verus!
