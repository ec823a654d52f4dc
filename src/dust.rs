use crate::geometry::{Position, Sprite};
use crate::timer::{tick_result, FrameTimer};
use vstd::prelude::*;

verus! {

/// Sprite-sheet frame of the first picture of a dust puff.
pub const DUST_FIRST_FRAME: usize = 29;

/// Number of pictures a dust puff shows before it disappears.
pub const DUST_FRAME_COUNT: usize = 3;

/// Time each dust picture stays on screen.
pub const DUST_FRAME_INTERVAL_NS: u64 = 100_000_000;

/// A short-lived puff drawn where the character dashed.
#[derive(Clone, Copy, Debug)]
pub struct Dust {
    pub position: Position,
    /// Which of the puff's pictures is shown, counted from zero.
    pub frame: usize,
    pub sprite: Sprite,
    pub timer: FrameTimer,
}

impl Dust {
    pub open spec fn wf(&self) -> bool {
        &&& self.timer.wf()
        &&& self.timer.interval_ns == DUST_FRAME_INTERVAL_NS
        &&& self.frame < DUST_FRAME_COUNT
        &&& self.sprite.index == DUST_FIRST_FRAME + self.frame
    }
}

/// A fresh puff at `position`, on its first picture.
pub open spec fn fresh_dust(position: Position) -> Dust {
    Dust {
        position,
        frame: 0,
        sprite: Sprite { index: DUST_FIRST_FRAME, flip_x: false },
        timer: FrameTimer { interval_ns: DUST_FRAME_INTERVAL_NS, elapsed_ns: 0, finished_this_tick: 0 },
    }
}

/// What becomes of a puff when its timer has run out at least once: it moves
/// to its next picture, or disappears when it was on its last one.
pub open spec fn dust_on_elapse(d: Dust) -> Option<Dust> {
    if d.frame + 1 >= DUST_FRAME_COUNT {
        None
    } else {
        Some(
            Dust {
                frame: (d.frame + 1) as usize,
                sprite: Sprite { index: (DUST_FIRST_FRAME + d.frame + 1) as usize, ..d.sprite },
                ..d
            },
        )
    }
}

/// One frame of a puff's life after `delta_ns` has passed.
pub open spec fn dust_step(d: Dust, delta_ns: u64) -> Option<Dust> {
    let t = tick_result(d.timer.interval_ns as nat, d.timer.elapsed_ns as nat, delta_ns as nat);
    let ticked = Dust {
        timer: FrameTimer {
            elapsed_ns: t.0 as u64,
            finished_this_tick: t.1 as u32,
            ..d.timer
        },
        ..d
    };
    if t.1 > 0 {
        dust_on_elapse(ticked)
    } else {
        Some(ticked)
    }
}

/// The puffs still alive after one frame, in their former order.
pub open spec fn dust_after(ds: Seq<Dust>, delta_ns: u64) -> Seq<Dust>
    decreases ds.len(),
{
    if ds.len() == 0 {
        seq![]
    } else {
        let before = dust_after(ds.drop_last(), delta_ns);
        match dust_step(ds.last(), delta_ns) {
            Some(d) => before.push(d),
            None => before,
        }
    }
}

/// Whether every puff can be ticked by `delta_ns`.
pub open spec fn dust_can_tick(ds: Seq<Dust>, delta_ns: u64) -> bool {
    forall|i: int|
        0 <= i < ds.len() ==> #[trigger] ds[i].wf() && ds[i].timer.can_tick(delta_ns)
}

/// A puff at `dust_pos` on its first picture, with a fresh timer.
pub fn spawn_dust(dust_pos: Position) -> (d: Dust)
    ensures
        d == fresh_dust(dust_pos),
        d.wf(),
{
    Dust {
        position: dust_pos,
        frame: 0,
        sprite: Sprite { index: DUST_FIRST_FRAME, flip_x: false },
        timer: FrameTimer::new(DUST_FRAME_INTERVAL_NS),
    }
}

/// Advances every puff by `delta_ns`: each whose timer ran out shows its next
/// picture, and one that was on its last picture is removed.
pub fn animate_dust(dust: &mut Vec<Dust>, delta_ns: u64)
    requires
        dust_can_tick(old(dust)@, delta_ns),
    ensures
        final(dust)@ == dust_after(old(dust)@, delta_ns),
        forall|i: int| 0 <= i < final(dust)@.len() ==> #[trigger] final(dust)@[i].wf(),
{
    let mut alive: Vec<Dust> = Vec::new();
    let n = dust.len();
    let mut i: usize = 0;
    while i < n
        invariant
            n == dust@.len(),
            i <= n,
            dust_can_tick(dust@, delta_ns),
            alive@ == dust_after(dust@.take(i as int), delta_ns),
            forall|j: int| 0 <= j < alive@.len() ==> #[trigger] alive@[j].wf(),
        decreases n - i,
    {
        let mut d = dust[i];
        assert(dust@.take(i + 1).drop_last() == dust@.take(i as int));
        assert(dust@[i as int].wf() && dust@[i as int].timer.can_tick(delta_ns));
        d.timer.tick(delta_ns);
        if d.timer.just_finished() {
            if d.frame + 1 < DUST_FRAME_COUNT {
                d.frame = d.frame + 1;
                d.sprite.index = DUST_FIRST_FRAME + d.frame;
                alive.push(d);
            }
        } else {
            alive.push(d);
        }
        i = i + 1;
    }
    assert(dust@.take(n as int) == dust@);
    *dust = alive;
}

/// A fresh puff shows its pictures in order, one per completed interval of
/// its timer, and is removed on the completion that follows its last one.
pub proof fn lemma_dust_lifetime(position: Position)
    ensures
        dust_on_elapse(fresh_dust(position)) is Some,
        dust_on_elapse(fresh_dust(position))->Some_0.sprite.index == DUST_FIRST_FRAME + 1,
        dust_on_elapse(dust_on_elapse(fresh_dust(position))->Some_0) is Some,
        dust_on_elapse(dust_on_elapse(fresh_dust(position))->Some_0)->Some_0.sprite.index
            == DUST_FIRST_FRAME + 2,
        dust_on_elapse(dust_on_elapse(dust_on_elapse(fresh_dust(position))->Some_0)->Some_0)
            is None,
{
}

} // verus!
