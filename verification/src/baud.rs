//! Baud ladder: the fixed ascending table of supported baud rates and the
//! current position on it, with wraparound increment and decrement.
//!
//! Applying a chosen rate to the physical device is the caller's effect; this
//! module only decides which rate is current after each step.

use vstd::prelude::*;

verus! {

/// Number of rates on the ladder.
pub const LADDER_LEN: usize = 6;

/// The fixed ascending ladder of supported baud rates.
pub open spec fn ladder() -> Seq<u32> {
    seq![9600u32, 19200u32, 33400u32, 57600u32, 115200u32, 230400u32]
}

/// Index after one increase: wraps from the last entry back to the first.
pub open spec fn inc_index(i: int) -> int {
    if i + 1 == ladder().len() {
        0
    } else {
        i + 1
    }
}

/// Index after one decrease: wraps from the first entry to the last.
pub open spec fn dec_index(i: int) -> int {
    if i == 0 {
        ladder().len() - 1
    } else {
        i - 1
    }
}

/// Index after `n` successive increases.
pub open spec fn iter_inc(i: int, n: nat) -> int
    decreases n,
{
    if n == 0 {
        i
    } else {
        iter_inc(inc_index(i), (n - 1) as nat)
    }
}

/// Index after `n` successive decreases.
pub open spec fn iter_dec(i: int, n: nat) -> int
    decreases n,
{
    if n == 0 {
        i
    } else {
        iter_dec(dec_index(i), (n - 1) as nat)
    }
}

/// Increase and decrease are mutually inverse bijections on the ladder's
/// index range, and each stays within that range.
pub proof fn lemma_inc_dec_inverse(i: int)
    requires
        0 <= i < ladder().len(),
    ensures
        0 <= inc_index(i) < ladder().len(),
        0 <= dec_index(i) < ladder().len(),
        dec_index(inc_index(i)) == i,
        inc_index(dec_index(i)) == i,
{
}

/// Applying increase as many times as the ladder is long returns to the
/// original index; so does decrease.
pub proof fn lemma_cycle_round_trip(i: int)
    requires
        0 <= i < ladder().len(),
    ensures
        iter_inc(i, ladder().len() as nat) == i,
        iter_dec(i, ladder().len() as nat) == i,
{
    reveal_with_fuel(iter_inc, 7);
    reveal_with_fuel(iter_dec, 7);
}

/// A decrease from the first index lands on the last one.
pub proof fn lemma_decrease_wraps()
    ensures
        dec_index(0) == ladder().len() - 1,
{
}

/// The rate stored at a ladder index.
pub fn rate_at(i: usize) -> (r: u32)
    requires
        i < ladder().len(),
    ensures
        r == ladder()[i as int],
{
    if i == 0 {
        9600
    } else if i == 1 {
        19200
    } else if i == 2 {
        33400
    } else if i == 3 {
        57600
    } else if i == 4 {
        115200
    } else {
        230400
    }
}

/// The ladder's current position. The index always resolves to a valid
/// entry: wraparound keeps it in range, never dangling.
pub struct BaudLadder {
    pub index: usize,
}

impl BaudLadder {
    /// The index denotes a real entry of the ladder.
    pub open spec fn wf(&self) -> bool {
        self.index < ladder().len()
    }

    /// The rate the ladder currently selects.
    pub open spec fn current_rate_spec(&self) -> u32 {
        ladder()[self.index as int]
    }

    /// A fresh ladder starts at the first (lowest) rate.
    pub fn new() -> (r: BaudLadder)
        ensures
            r.wf(),
            r.index == 0,
    {
        BaudLadder { index: 0 }
    }

    /// The rate the ladder currently selects.
    pub fn current_rate(&self) -> (r: u32)
        requires
            self.wf(),
        ensures
            r == self.current_rate_spec(),
    {
        rate_at(self.index)
    }

    /// Steps to the next rate, wrapping from the top of the ladder back to
    /// the bottom.
    pub fn increase(&mut self)
        requires
            old(self).wf(),
        ensures
            final(self).wf(),
            final(self).index == inc_index(old(self).index as int),
    {
        if self.index + 1 >= LADDER_LEN {
            self.index = 0;
        } else {
            self.index = self.index + 1;
        }
    }

    /// Steps to the previous rate, wrapping from the bottom of the ladder to
    /// the top.
    pub fn decrease(&mut self)
        requires
            old(self).wf(),
        ensures
            final(self).wf(),
            final(self).index == dec_index(old(self).index as int),
    {
        if self.index == 0 {
            self.index = LADDER_LEN - 1;
        } else {
            self.index = self.index - 1;
        }
    }
}

} // verus!
