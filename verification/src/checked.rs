//! Tags with diagnostics switched on: every tag carries a 32-bit value, and
//! each thread mints its tags from a counter of its own.

use crate::offset::offset_after;
use crate::offset::offsets_differ;
use crate::offset::range;
use crate::offset::OffsetAllocator;
use vstd::prelude::*;
use vstd::std_specs::cmp::PartialEqSpec;

verus! {

/// The value that follows `value` in a thread's sequence: one more, and zero
/// after the largest.
pub open spec fn successor(value: u32) -> u32 {
    if value == u32::MAX {
        0
    } else {
        (value + 1) as u32
    }
}

/// The counter that one thread mints its tags from.
#[derive(Clone, Copy, Debug)]
pub struct LocalCounter {
    upcoming: u32,
}

impl LocalCounter {
    /// The value that the next tag minted from this counter carries.
    pub closed spec fn view(&self) -> u32 {
        self.upcoming
    }

    /// Minting from `self` gives `value` and leaves the counter as `after`.
    pub open spec fn mints(&self, value: u32, after: LocalCounter) -> bool {
        &&& value == self@
        &&& after@ == successor(self@)
    }

    /// A counter whose first tag carries `offset`.
    pub fn starting_at(offset: u32) -> (local: LocalCounter)
        ensures
            local@ == offset,
    {
        LocalCounter { upcoming: offset }
    }

    /// A counter for a thread that has none yet: it starts at the offset
    /// that the shared counter hands out, and draws from it exactly once.
    pub fn seeded_from(allocator: &mut OffsetAllocator) -> (local: LocalCounter)
        ensures
            local@ == old(allocator)@,
            final(allocator)@ == offset_after(old(allocator)@, 1),
    {
        let offset: u32 = allocator.allocate_offset();
        LocalCounter::starting_at(offset)
    }
}

/// Takes the upcoming value from the thread's counter and moves the counter
/// on by one, wrapping around after `u32::MAX`.
pub fn next(local: &mut LocalCounter) -> (value: u32)
    ensures
        old(local).mints(value, *final(local)),
{
    let value: u32 = local.upcoming;
    local.upcoming = value.wrapping_add(1);
    value
}

/// A value such that two tags that are not equal are never copies of one
/// another.
///
/// Equal tags need not be copies: two counters may reach the same value. So
/// a check on tags is a sanity check, and nothing should depend on it.
#[derive(Clone, Copy, Debug)]
#[non_exhaustive]
pub struct DebugTag(u32);

impl DebugTag {
    /// The value that the tag carries.
    pub closed spec fn view(&self) -> u32 {
        self.0
    }

    /// Mints a tag from the thread's counter.
    pub fn new(local: &mut LocalCounter) -> (tag: DebugTag)
        ensures
            old(local).mints(tag@, *final(local)),
    {
        DebugTag(next(local))
    }

    /// The tag that carries `tag`, whatever any counter holds.
    ///
    /// Prefer `new`. This is for a tag that has to be the same in every run;
    /// the value should be chosen at random, once.
    pub fn from(tag: u32) -> (made: DebugTag)
        ensures
            made@ == tag,
    {
        DebugTag(tag)
    }
}

impl PartialEq for DebugTag {
    fn eq(&self, other: &DebugTag) -> (equal: bool) {
        self.0 == other.0
    }
}

impl Eq for DebugTag {

}

impl vstd::std_specs::cmp::PartialEqSpecImpl for DebugTag {
    open spec fn obeys_eq_spec() -> bool {
        true
    }

    open spec fn eq_spec(&self, other: &DebugTag) -> bool {
        self@ == other@
    }
}

/// Two tags minted one right after the other from the same counter are
/// unequal, and the second carries the value that follows the first's.
pub proof fn successive_tags_differ(
    before: LocalCounter,
    first: DebugTag,
    between: LocalCounter,
    second: DebugTag,
    after: LocalCounter,
)
    requires
        before.mints(first@, between),
        between.mints(second@, after),
    ensures
        second@ == successor(first@),
        second@ == (first@ + 1) % range(),
        !first.eq_spec(&second),
{
}

/// A copy of a tag is equal to the tag.
pub proof fn copy_is_equal(tag: DebugTag, copy: DebugTag)
    requires
        copy == tag,
    ensures
        tag.eq_spec(&copy),
{
}

/// Every tag is equal to itself.
pub proof fn eq_is_reflexive(tag: DebugTag)
    ensures
        tag.eq_spec(&tag),
{
}

/// Equality of tags does not depend on the side a tag stands on.
pub proof fn eq_is_symmetric(left: DebugTag, right: DebugTag)
    ensures
        left.eq_spec(&right) == right.eq_spec(&left),
{
}

/// Two tags equal to a third are equal to each other.
pub proof fn eq_is_transitive(first: DebugTag, second: DebugTag, third: DebugTag)
    requires
        first.eq_spec(&second),
        second.eq_spec(&third),
    ensures
        first.eq_spec(&third),
{
}

/// Tags are equal exactly when they carry the same value. So two tags made
/// from one constant are equal, and tags made from two constants are not.
pub proof fn eq_compares_values(left: DebugTag, right: DebugTag)
    ensures
        left.eq_spec(&right) <==> left@ == right@,
{
}

/// Threads whose counters were seeded by different draws from one shared
/// counter, less than a full range of draws apart, mint different first
/// tags.
pub proof fn first_tags_differ(
    pending: u32,
    earlier: nat,
    later: nat,
    one: LocalCounter,
    other: LocalCounter,
    first_of_one: DebugTag,
    first_of_other: DebugTag,
)
    requires
        earlier < later < earlier + range(),
        one@ == offset_after(pending, earlier),
        other@ == offset_after(pending, later),
        first_of_one@ == one@,
        first_of_other@ == other@,
    ensures
        !first_of_one.eq_spec(&first_of_other),
{
    offsets_differ(pending, earlier, later);
}

} // verus!
