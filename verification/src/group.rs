//! Channel grouping tags.

use vstd::prelude::*;

verus! {

/// A logical tag grouping channels for aggregate operations; minus one is
/// the default, ungrouped tag.
#[derive(Debug, Copy, Clone, PartialEq, Eq, Structural)]
pub struct Group(pub i32);

impl Default for Group {
    /// The default group tag, to which every channel initially belongs.
    fn default() -> (r: Group)
        ensures
            r.0 == -1,
    {
        Group(-1)
    }
}

} // verus!
