//! The shared counter that hands each thread the offset at which its own
//! counter starts.

use vstd::arithmetic::div_mod::lemma_add_mod_noop;
use vstd::arithmetic::div_mod::lemma_fundamental_div_mod;
use vstd::arithmetic::div_mod::lemma_mod_equivalence;
use vstd::arithmetic::div_mod::lemma_mod_twice;
use vstd::prelude::*;

verus! {

/// What the shared counter grows by with every offset it hands out:
/// `2^32 * (1 - 1/phi)`, with `phi` the golden ratio. Multiples of it lie
/// evenly over the 32-bit range, however many of them are taken.
pub const INCREMENT: u32 = 1_640_531_527;

/// The number of values a 32-bit counter runs through before it repeats.
pub open spec fn range() -> int {
    0x1_0000_0000
}

/// The offset that is handed out `draws` draws after `pending` was.
pub open spec fn offset_after(pending: u32, draws: nat) -> u32 {
    ((pending + draws * INCREMENT) % range()) as u32
}

/// The counter shared by all threads.
#[derive(Debug)]
pub struct OffsetAllocator {
    pending: u32,
}

impl OffsetAllocator {
    /// The offset that the next draw hands out.
    pub closed spec fn view(&self) -> u32 {
        self.pending
    }

    /// A counter from which nothing was drawn yet.
    pub fn new() -> (allocator: OffsetAllocator)
        ensures
            allocator@ == INCREMENT,
    {
        OffsetAllocator { pending: INCREMENT }
    }

    /// Hands out the pending offset and moves on by `INCREMENT`, wrapping
    /// around at the end of the 32-bit range.
    pub fn allocate_offset(&mut self) -> (offset: u32)
        ensures
            offset == old(self)@,
            final(self)@ == offset_after(old(self)@, 1),
    {
        let offset: u32 = self.pending;
        self.pending = offset.wrapping_add(INCREMENT);
        offset
    }
}

/// Drawing nothing leaves the pending offset where it is.
pub proof fn no_draw_keeps_offset(pending: u32)
    ensures
        offset_after(pending, 0) == pending,
{
    assert(pending + 0 * INCREMENT == pending);
}

/// A counter that nothing was drawn from starts at `INCREMENT`, so its
/// offsets are the multiples of `INCREMENT`, from the first on, reduced to
/// the 32-bit range.
pub proof fn fresh_offsets_are_multiples(draws: nat)
    ensures
        offset_after(INCREMENT, draws) == ((draws + 1) * INCREMENT) % range(),
{
    assert(INCREMENT + draws * INCREMENT == (draws + 1) * INCREMENT) by (nonlinear_arith);
}

/// Draws add up: the offset reached in `first` draws and then `then` more is
/// the one reached in `first + then` draws.
pub proof fn draws_add_up(pending: u32, first: nat, then: nat)
    ensures
        offset_after(offset_after(pending, first), then) == offset_after(pending, first + then),
{
    let reached: int = pending + first * INCREMENT;
    lemma_add_mod_noop(reached, then * INCREMENT, range());
    lemma_mod_twice(reached, range());
    lemma_add_mod_noop(reached % range(), then * INCREMENT, range());
    assert(reached + then * INCREMENT == pending + (first + then) * INCREMENT)
        by (nonlinear_arith)
        requires
            reached == pending + first * INCREMENT,
    ;
}

/// No multiple of `INCREMENT` by less than the range is a multiple of the
/// range, since `INCREMENT` is odd.
proof fn increment_has_no_short_cycle(apart: int)
    requires
        0 < apart < range(),
    ensures
        (apart * INCREMENT) % range() != 0,
{
    let product: int = apart * INCREMENT;
    if product % range() == 0 {
        // 3954393975 is the inverse of INCREMENT modulo the range.
        let wraps: int = product / range();
        lemma_fundamental_div_mod(product, range());
        assert(apart == range() * (wraps * 3954393975 - apart * 1510444094))
            by (nonlinear_arith)
            requires
                apart * 1_640_531_527 == 0x1_0000_0000 * wraps,
                range() == 0x1_0000_0000,
        ;
        let whole: int = wraps * 3954393975 - apart * 1510444094;
        assert(false) by (nonlinear_arith)
            requires
                apart == 0x1_0000_0000 * whole,
                0 < apart < 0x1_0000_0000,
        ;
    }
}

/// Offsets drawn less than a full range of draws apart are different: the
/// sequence only repeats after `2^32` draws.
pub proof fn offsets_differ(pending: u32, earlier: nat, later: nat)
    requires
        earlier < later < earlier + range(),
    ensures
        offset_after(pending, earlier) != offset_after(pending, later),
{
    let low: int = pending + earlier * INCREMENT;
    let high: int = pending + later * INCREMENT;
    if low % range() == high % range() {
        lemma_mod_equivalence(high, low, range());
        assert(high - low == (later - earlier) * INCREMENT) by (nonlinear_arith)
            requires
                low == pending + earlier * INCREMENT,
                high == pending + later * INCREMENT,
        ;
        increment_has_no_short_cycle(later - earlier);
    }
}

} // verus!
