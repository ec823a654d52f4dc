use vstd::arithmetic::div_mod::lemma_fundamental_div_mod_converse;
use vstd::prelude::*;

verus! {

/// The cursor position that follows `index` in a cycle of `len` frames.
pub open spec fn next_index(len: nat, index: nat) -> nat {
    if index + 1 >= len {
        0
    } else {
        index + 1
    }
}

/// The cursor position after `n` advances from `index`.
pub open spec fn index_after(len: nat, index: nat, n: nat) -> nat
    decreases n,
{
    if n == 0 {
        index
    } else {
        next_index(len, index_after(len, index, (n - 1) as nat))
    }
}

/// `n` advances move the cursor `n` places forward, modulo the cycle length.
pub proof fn lemma_index_after(len: nat, index: nat, n: nat)
    requires
        index < len,
    ensures
        index_after(len, index, n) == (index + n) % len,
    decreases n,
{
    if n == 0 {
        lemma_fundamental_div_mod_converse(index as int, len as int, 0, index as int);
    } else {
        lemma_index_after(len, index, (n - 1) as nat);
        let prev = index_after(len, index, (n - 1) as nat);
        let q = (index + n - 1) / (len as int);
        vstd::arithmetic::div_mod::lemma_fundamental_div_mod((index + n - 1) as int, len as int);
        assert((index + n - 1) as int == q * len + prev) by (nonlinear_arith)
            requires
                (index + n - 1) as int == len * q + prev,
        ;
        if prev + 1 >= len {
            assert((index + n) as int == (q + 1) * len + 0) by (nonlinear_arith)
                requires
                    (index + n - 1) as int == q * len + prev,
                    prev + 1 == len,
            ;
            lemma_fundamental_div_mod_converse((index + n) as int, len as int, q + 1, 0);
        } else {
            lemma_fundamental_div_mod_converse(
                (index + n) as int,
                len as int,
                q,
                (prev + 1) as int,
            );
        }
    }
}

/// After as many advances as the cycle has frames, the cursor is back where
/// it started, and it always stays on a valid frame.
pub proof fn lemma_cycle_wraps(len: nat, index: nat)
    requires
        index < len,
    ensures
        index_after(len, index, len) == index,
        forall|n: nat| #[trigger] index_after(len, index, n) < len,
{
    lemma_index_after(len, index, len);
    lemma_fundamental_div_mod_converse((index + len) as int, len as int, 1, index as int);
    assert forall|n: nat| #[trigger] index_after(len, index, n) < len by {
        lemma_index_after(len, index, n);
    }
}

/// An ordered, wrapping list of sprite frames with a cursor on one of them.
pub struct AnimationCycle {
    pub index: usize,
    pub sprite_indices: Vec<usize>,
}

impl AnimationCycle {
    pub open spec fn wf(&self) -> bool {
        0 < self.sprite_indices@.len() && self.index < self.sprite_indices@.len()
    }

    /// The frame under the cursor.
    pub open spec fn frame(&self) -> usize {
        self.sprite_indices@[self.index as int]
    }

    /// A cycle over `sprite_indices` with the cursor on the first frame.
    pub fn new(sprite_indices: Vec<usize>) -> (c: AnimationCycle)
        requires
            sprite_indices@.len() > 0,
        ensures
            c.wf(),
            c.index == 0,
            c.sprite_indices@ == sprite_indices@,
    {
        AnimationCycle { index: 0, sprite_indices }
    }

    pub fn current(&self) -> (f: usize)
        requires
            self.wf(),
        ensures
            f == self.frame(),
    {
        self.sprite_indices[self.index]
    }

    /// Moves the cursor to the next frame, back to the first after the last,
    /// and returns the frame now under it.
    pub fn advance(&mut self) -> (f: usize)
        requires
            old(self).wf(),
        ensures
            final(self).wf(),
            final(self).sprite_indices@ == old(self).sprite_indices@,
            final(self).index == next_index(
                old(self).sprite_indices@.len(),
                old(self).index as nat,
            ),
            f == final(self).frame(),
    {
        if self.index == self.sprite_indices.len() - 1 {
            self.index = 0;
        } else {
            self.index = self.index + 1;
        }
        self.sprite_indices[self.index]
    }
}

} // verus!
