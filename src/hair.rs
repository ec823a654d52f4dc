use crate::actor::Actor;
use crate::geometry::{flip_for, flipped, Facing, Position, Sprite};
use vstd::arithmetic::div_mod::{
    lemma_div_is_ordered, lemma_fundamental_div_mod, lemma_fundamental_div_mod_converse,
};
use vstd::prelude::*;

verus! {

/// Number of segments the hair is made of.
pub const HAIR_SEGMENTS: usize = 6;

/// Number of past positions of the character that the hair follows.
pub const HAIR_HISTORY_CAPACITY: usize = 5;

/// One segment of the trailing hair.
#[derive(Clone, Copy, Debug, PartialEq, Eq, Structural)]
pub struct Hair {
    /// Place of the segment in the trail, from the head; also its picture.
    pub ordinal: usize,
    pub position: Position,
    pub sprite: Sprite,
}

/// The segments of a trail stand in the order of their ordinals.
pub open spec fn hair_wf(hair: Seq<Hair>) -> bool {
    forall|i: int| 0 <= i < hair.len() ==> (#[trigger] hair[i]).ordinal == i
}

/// The latest positions of the character, newest first.
pub struct HairHistory {
    pub samples: Vec<Position>,
}

impl HairHistory {
    pub open spec fn wf(&self) -> bool {
        self.samples@.len() <= HAIR_HISTORY_CAPACITY
    }

    pub fn new() -> (h: HairHistory)
        ensures
            h.wf(),
            h.samples@.len() == 0,
    {
        HairHistory { samples: Vec::new() }
    }

    /// Records `p` as the newest position, forgetting the oldest beyond
    /// capacity.
    pub fn push(&mut self, p: Position)
        requires
            old(self).wf(),
        ensures
            final(self).wf(),
            final(self).samples@ == history_after(old(self).samples@, p),
    {
        self.samples.insert(0, p);
        if self.samples.len() > HAIR_HISTORY_CAPACITY {
            self.samples.pop();
        }
        assert(self.samples@ == history_after(old(self).samples@, p));
    }
}

/// The history once `p` has been recorded in front of `h`.
pub open spec fn history_after(h: Seq<Position>, p: Position) -> Seq<Position> {
    let s = seq![p] + h;
    if s.len() > HAIR_HISTORY_CAPACITY {
        s.take(HAIR_HISTORY_CAPACITY as int)
    } else {
        s
    }
}

/// The history sample that segment `i` of `n` follows when `h` samples are
/// kept: runs of `n / h + 1` segments share a sample, newest first, and the
/// oldest sample takes all that remain.
pub open spec fn bucket_of(i: nat, n: nat, h: nat) -> nat {
    let q = i / (n / h + 1);
    if q < h - 1 {
        q
    } else {
        (h - 1) as nat
    }
}

/// The trail after it has been laid along `history`: each segment moves to
/// its sample and is mirrored as `facing` asks.
pub open spec fn hair_after(hair: Seq<Hair>, history: Seq<Position>, facing: Facing) -> Seq<Hair> {
    Seq::new(
        hair.len(),
        |i: int|
            Hair {
                position: history[bucket_of(i as nat, hair.len(), history.len()) as int],
                sprite: Sprite { flip_x: flipped(facing), ..hair[i].sprite },
                ..hair[i]
            },
    )
}

/// Every segment follows exactly one sample, one that is kept, the head
/// follows the newest, and going down the trail never moves to a newer
/// sample.
pub proof fn lemma_bucket_coverage(n: nat, h: nat)
    requires
        n >= 1,
        1 <= h <= HAIR_HISTORY_CAPACITY,
    ensures
        bucket_of(0, n, h) == 0,
        forall|i: nat| i < n ==> #[trigger] bucket_of(i, n, h) < h,
        forall|i: nat, j: nat|
            i <= j < n ==> #[trigger] bucket_of(i, n, h) <= #[trigger] bucket_of(j, n, h),
{
    let k = n / h + 1;
    assert forall|i: nat, j: nat| i <= j < n implies #[trigger] bucket_of(i, n, h)
        <= #[trigger] bucket_of(j, n, h) by {
        lemma_div_is_ordered(i as int, j as int, k as int);
    }
}

/// Steps a quotient and remainder by one.
pub(crate) proof fn lemma_div_step(i: nat, k: nat)
    requires
        k > 0,
    ensures
        i % k + 1 < k ==> (i + 1) / k == i / k && (i + 1) % k == i % k + 1,
        i % k + 1 == k ==> (i + 1) / k == i / k + 1 && (i + 1) % k == 0,
{
    lemma_fundamental_div_mod(i as int, k as int);
    let q = i / k;
    let r = i % k;
    assert(i == q * k + r) by (nonlinear_arith)
        requires
            i == k * q + r,
    ;
    if r + 1 < k {
        lemma_fundamental_div_mod_converse((i + 1) as int, k as int, q as int, (r + 1) as int);
    } else {
        assert(i + 1 == (q + 1) * k + 0) by (nonlinear_arith)
            requires
                i == q * k + r,
                r + 1 == k,
        ;
        lemma_fundamental_div_mod_converse((i + 1) as int, k as int, (q + 1) as int, 0);
    }
}

/// Makes the trail at the character's position when a character exists and
/// no trail does; otherwise leaves it as it is.
pub fn spawn_hair(actor: &Option<Actor>, hair: &mut Vec<Hair>)
    ensures
        final(hair)@ == hair_after_spawn(actor_position(*actor), old(hair)@),
{
    match actor {
        Some(a) => {
            if hair.len() == 0 {
                let mut i: usize = 0;
                while i < HAIR_SEGMENTS
                    invariant
                        i <= HAIR_SEGMENTS,
                        hair@ == fresh_hair(a.position).take(i as int),
                    decreases HAIR_SEGMENTS - i,
                {
                    hair.push(
                        Hair {
                            ordinal: i,
                            position: a.position,
                            sprite: Sprite { index: i, flip_x: false },
                        },
                    );
                    i = i + 1;
                    assert(hair@ == fresh_hair(a.position).take(i as int));
                }
                assert(hair@ == fresh_hair(a.position).take(HAIR_SEGMENTS as int));
                assert(fresh_hair(a.position).take(HAIR_SEGMENTS as int) == fresh_hair(a.position));
            }
        },
        None => {},
    }
}

/// Where the character stands, if one exists.
pub open spec fn actor_position(actor: Option<Actor>) -> Option<Position> {
    match actor {
        Some(a) => Some(a.position),
        None => None,
    }
}

/// The trail once a character at `actor_pos`, if any, has been given one.
pub open spec fn hair_after_spawn(actor_pos: Option<Position>, hair: Seq<Hair>) -> Seq<Hair> {
    match actor_pos {
        Some(p) => if hair.len() == 0 {
            fresh_hair(p)
        } else {
            hair
        },
        None => hair,
    }
}

/// The trail once it has been removed for want of a character.
pub open spec fn hair_after_despawn(actor_exists: bool, hair: Seq<Hair>) -> Seq<Hair> {
    if actor_exists {
        hair
    } else {
        seq![]
    }
}

/// After a frame's trail checks, made in either order, a trail exists exactly
/// when a character does, and a new trail is well formed.
pub proof fn lemma_hair_follows_actor(actor_pos: Option<Position>, hair: Seq<Hair>)
    requires
        hair_wf(hair),
    ensures
        hair_after_spawn(actor_pos, hair_after_despawn(actor_pos is Some, hair)).len() > 0
            <==> actor_pos is Some,
        hair_after_despawn(actor_pos is Some, hair_after_spawn(actor_pos, hair)).len() > 0
            <==> actor_pos is Some,
        hair_wf(hair_after_spawn(actor_pos, hair_after_despawn(actor_pos is Some, hair))),
{
}

/// A new trail: all its segments at `p`, in order, unmirrored.
pub open spec fn fresh_hair(p: Position) -> Seq<Hair> {
    Seq::new(
        HAIR_SEGMENTS as nat,
        |i: int| Hair { ordinal: i as usize, position: p, sprite: Sprite { index: i as usize, flip_x: false } },
    )
}

/// Removes the trail when no character exists.
pub fn despawn_hair(actor: &Option<Actor>, hair: &mut Vec<Hair>)
    ensures
        final(hair)@ == hair_after_despawn(actor is Some, old(hair)@),
{
    if actor.is_none() && hair.len() > 0 {
        hair.clear();
    }
}

/// Records the character's position in the history and lays the trail along
/// it. Does nothing when there is no character or no trail.
pub fn animate_hair(actor: &Option<Actor>, hair: &mut Vec<Hair>, history: &mut HairHistory)
    requires
        hair_wf(old(hair)@),
        old(history).wf(),
    ensures
        hair_wf(final(hair)@),
        final(history).wf(),
        (actor is None || old(hair)@.len() == 0) ==> final(hair)@ == old(hair)@
            && final(history).samples@ == old(history).samples@,
        (actor is Some && old(hair)@.len() > 0) ==> {
            &&& final(history).samples@ == history_after(
                old(history).samples@,
                actor->Some_0.position,
            )
            &&& final(hair)@ == hair_after(
                old(hair)@,
                final(history).samples@,
                actor->Some_0.facing,
            )
        },
{
    let a = match actor {
        Some(a) => a,
        None => {
            return;
        },
    };
    if hair.len() == 0 {
        return;
    }
    history.push(a.position);
    let flip = flip_for(a.facing);
    let n = hair.len();
    let h = history.samples.len();
    let bucket_size = n / h;
    let ghost k = (bucket_size + 1) as nat;
    let ghost old_hair = hair@;
    let mut bucket_index: usize = 0;
    let mut count: usize = 0;
    let mut i: usize = 0;
    while i < n
        invariant
            n == hair@.len(),
            n == old_hair.len(),
            h == history.samples@.len(),
            1 <= h <= HAIR_HISTORY_CAPACITY,
            bucket_size == n / h,
            k == bucket_size + 1,
            i <= n,
            count as nat == (i as nat) % k,
            count <= i,
            flip == flipped(a.facing),
            bucket_index == bucket_of(i as nat, n as nat, h as nat),
            hair_wf(old_hair),
            forall|j: int| i <= j < n ==> hair@[j] == old_hair[j],
            forall|j: int|
                0 <= j < i ==> hair@[j] == #[trigger] hair_after(
                    old_hair,
                    history.samples@,
                    a.facing,
                )[j],
        decreases n - i,
    {
        let mut seg = hair[i];
        seg.position = history.samples[bucket_index];
        seg.sprite.flip_x = flip;
        hair.set(i, seg);
        assert(hair@[i as int] == hair_after(old_hair, history.samples@, a.facing)[i as int]);
        proof {
            lemma_div_step(i as nat, k);
        }
        count = count + 1;
        if count > bucket_size {
            bucket_index = if bucket_index < h - 1 {
                bucket_index + 1
            } else {
                bucket_index
            };
            count = 0;
        }
        i = i + 1;
    }
    assert(hair@ == hair_after(old_hair, history.samples@, a.facing));
}

} // verus!
