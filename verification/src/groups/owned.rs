//! The groups owned by the authenticated user.

use vstd::prelude::*;

verus! {

/// A listing of the caller's own groups. It takes no filters, so it always
/// encodes to the bare path.
#[derive(Debug, Clone)]
pub struct GroupsLister {}

impl GroupsLister {
    /// The exact query this listing encodes to.
    pub open spec fn spec_query(self) -> Seq<char> {
        "groups/owned"@
    }

    pub fn new() -> GroupsLister {
        GroupsLister {  }
    }

    /// Encodes this listing as its wire-level query string.
    pub fn build_query(&self) -> (r: String)
        ensures
            r@ == self.spec_query(),
    {
        String::from_str("groups/owned")
    }
}

} // verus!
