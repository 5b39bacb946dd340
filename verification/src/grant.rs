//! Grant handles: kernel-side per-process memory regions owned by capsules.
//!
//! A grant is allocated an index at board initialization; processes later
//! reserve one pointer per allocated grant when their memory is laid out.
//! Once process loading begins the grant count is finalized and no further
//! grants can be created.

use vstd::prelude::*;

verus! {

/// Handle to one grant region, identified by the index the kernel assigned
/// when the grant was created.
#[derive(Clone, Copy, PartialEq, Eq, Structural, Debug)]
pub struct Grant {
    /// The index the kernel assigned when the grant was created.
    pub grant_num: usize,
}

impl Grant {
    /// The index of this grant region.
    pub open spec fn spec_grant_num(self) -> usize {
        self.grant_num
    }

    /// Build a handle for the grant region at `grant_num`. Only the kernel's
    /// grant allocation path constructs these.
    pub(crate) fn new(grant_num: usize) -> (r: Grant)
        ensures
            r.spec_grant_num() == grant_num,
    {
        Grant { grant_num }
    }

    /// The index of this grant region.
    pub fn grant_num(&self) -> (r: usize)
        ensures
            r == self.spec_grant_num(),
    {
        self.grant_num
    }
}

} // verus!
