//! Tags with diagnostics switched off: a tag carries nothing and takes no
//! space, no counter is read or moved, and all tags are equal.

use vstd::prelude::*;
use vstd::std_specs::cmp::PartialEqSpec;

verus! {

/// A tag that marks nothing. It stands where a checked tag would stand, at
/// no cost.
#[derive(Clone, Copy, Debug)]
#[non_exhaustive]
pub struct DebugTag();

impl DebugTag {
    /// The tag; there is no other.
    pub fn new() -> (tag: DebugTag)
        ensures
            tag == DebugTag(),
    {
        DebugTag()
    }

    /// The tag, whatever `_tag` is: the value is taken and dropped.
    pub fn from(_tag: u32) -> (made: DebugTag)
        ensures
            made == DebugTag(),
    {
        DebugTag()
    }
}

impl Default for DebugTag {
    fn default() -> (tag: DebugTag)
        ensures
            tag == DebugTag(),
    {
        DebugTag()
    }
}

impl PartialEq for DebugTag {
    fn eq(&self, other: &DebugTag) -> (equal: bool) {
        true
    }
}

impl Eq for DebugTag {

}

impl vstd::std_specs::cmp::PartialEqSpecImpl for DebugTag {
    open spec fn obeys_eq_spec() -> bool {
        true
    }

    open spec fn eq_spec(&self, other: &DebugTag) -> bool {
        true
    }
}

/// Any two tags are equal, however each was made.
pub proof fn all_tags_are_equal(left: DebugTag, right: DebugTag)
    ensures
        left.eq_spec(&right),
        left == right,
{
}

/// A copy of a tag is equal to the tag.
pub proof fn copy_is_equal(tag: DebugTag, copy: DebugTag)
    requires
        copy == tag,
    ensures
        tag.eq_spec(&copy),
{
}

/// Every tag is equal to itself.
pub proof fn eq_is_reflexive(tag: DebugTag)
    ensures
        tag.eq_spec(&tag),
{
}

} // verus!
