//! A bare listing value for the caller's own groups.

use vstd::prelude::*;

verus! {

/// A listing of the caller's own groups, as a plain value with no filters.
#[derive(Debug, Clone)]
pub struct Listing {}

impl Listing {
    /// The exact query this listing encodes to.
    pub open spec fn spec_query(self) -> Seq<char> {
        "groups/owned"@
    }

    pub fn new() -> Listing {
        Listing {  }
    }

    /// Encodes this listing as its wire-level query string.
    pub fn build_query(&self) -> (r: String)
        ensures
            r@ == self.spec_query(),
    {
        String::from_str("groups/owned")
    }
}

impl Default for Listing {
    fn default() -> Listing {
        Listing {  }
    }
}

} // verus!
