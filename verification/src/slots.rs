//! The wallpaper slot store: two reusable on-disk locations addressed by
//! a single toggling cursor. The cursor names the slot the next write
//! will use; it flips on a successful apply and never on a failed one,
//! so successive successful writes strictly alternate between the slots.

use vstd::prelude::*;

verus! {

/// Double-buffer cursor over the two wallpaper slots.
#[derive(Debug)]
pub struct SlotStore {
    cursor: u64,
}

impl SlotStore {
    /// The slot index the next write will target.
    pub closed spec fn next_slot_spec(self) -> u64 {
        self.cursor
    }

    /// The cursor only ever names one of the two slots.
    pub open spec fn wf(self) -> bool {
        self.next_slot_spec() == 0 || self.next_slot_spec() == 1
    }

    /// A fresh store targets slot 0 first.
    pub fn new() -> (s: Self)
        ensures
            s.wf(),
            s.next_slot_spec() == 0,
    {
        SlotStore { cursor: 0 }
    }

    /// The slot the next write will use.
    pub fn next_slot(&self) -> (r: u64)
        ensures
            r == self.next_slot_spec(),
    {
        self.cursor
    }

    /// The other slot: the one holding the previously applied wallpaper,
    /// if any, and therefore the one to delete after a successful apply.
    pub fn previous_slot(&self) -> (r: u64)
        requires
            self.wf(),
        ensures
            r == 1 - self.next_slot_spec(),
    {
        1 - self.cursor
    }

    /// Record the outcome of an apply attempt: a success flips the
    /// cursor to the other slot, a failure leaves it in place.
    pub fn record_apply(&mut self, ok: bool)
        requires
            old(self).wf(),
        ensures
            final(self).wf(),
            ok ==> final(self).next_slot_spec() == 1 - old(self).next_slot_spec(),
            !ok ==> final(self).next_slot_spec() == old(self).next_slot_spec(),
    {
        if ok {
            self.cursor = 1 - self.cursor;
        }
    }
}

/// Spec: the cursor reached from `init` after the given sequence of
/// apply outcomes (`true` marks a successful apply).
pub open spec fn cursor_after(init: u64, outcomes: Seq<bool>) -> u64
    decreases outcomes.len(),
{
    if outcomes.len() == 0 {
        init
    } else {
        let prev = cursor_after(init, outcomes.drop_last());
        if outcomes.last() {
            if prev == 0 {
                1u64
            } else {
                0u64
            }
        } else {
            prev
        }
    }
}

/// Spec: how many outcomes in the sequence were successes.
pub open spec fn count_successes(outcomes: Seq<bool>) -> int
    decreases outcomes.len(),
{
    if outcomes.len() == 0 {
        0
    } else {
        count_successes(outcomes.drop_last()) + if outcomes.last() {
            1int
        } else {
            0int
        }
    }
}

proof fn lemma_count_successes_nonneg(outcomes: Seq<bool>)
    ensures
        count_successes(outcomes) >= 0,
    decreases outcomes.len(),
{
    if outcomes.len() > 0 {
        lemma_count_successes_nonneg(outcomes.drop_last());
    }
}

/// Law: recording one more outcome moves the fold exactly as
/// `record_apply` moves the store's cursor: a success flips it, a
/// failure leaves it.
pub proof fn lemma_cursor_after_step(init: u64, outcomes: Seq<bool>, b: bool)
    ensures
        cursor_after(init, outcomes.push(b)) == if b {
            if cursor_after(init, outcomes) == 0 {
                1u64
            } else {
                0u64
            }
        } else {
            cursor_after(init, outcomes)
        },
{
    assert(outcomes.push(b).drop_last() =~= outcomes);
}

/// Law: starting from slot 0, the cursor always equals the number of
/// successful applies so far, modulo two. So the cursor strictly
/// alternates 0, 1, 0, 1, … across successive successful applies, and a
/// failed apply never advances it.
pub proof fn lemma_cursor_alternates(outcomes: Seq<bool>)
    ensures
        cursor_after(0, outcomes) == count_successes(outcomes) % 2,
    decreases outcomes.len(),
{
    if outcomes.len() > 0 {
        lemma_cursor_alternates(outcomes.drop_last());
        lemma_count_successes_nonneg(outcomes.drop_last());
    }
}

} // verus!
