//! Details of one group, designated by id or namespaced path.

use vstd::prelude::*;

use crate::groups::ListingId;
use crate::query::append_escaped_segment;
use crate::query::append_i64_dec;
use crate::query::spec_escape_segment;
use crate::query::spec_i64_dec;

verus! {

/// A request for one group's details.
#[derive(Debug, Clone)]
pub struct GroupLister {
    /// The group asked about.
    pub id: ListingId,
}

impl GroupLister {
    /// The designator as it appears in the path: a numeric id in decimal, a
    /// namespaced path as one escaped segment.
    pub open spec fn spec_id_segment(self) -> Seq<char> {
        match self.id {
            ListingId::Id(n) => spec_i64_dec(n as int),
            ListingId::NamespaceProject(s) => spec_escape_segment(s@),
        }
    }

    /// The exact query this request encodes to.
    pub open spec fn spec_query(self) -> Seq<char> {
        "groups/"@ + self.spec_id_segment()
    }

    pub fn new(id: ListingId) -> (r: GroupLister)
        ensures
            r.id == id,
    {
        GroupLister { id }
    }

    /// Encodes this request as its wire-level query string.
    pub fn build_query(&self) -> (r: String)
        ensures
            r@ == self.spec_query(),
    {
        let mut q = String::from_str("groups/");
        match &self.id {
            ListingId::Id(n) => append_i64_dec(&mut q, *n),
            ListingId::NamespaceProject(s) => append_escaped_segment(&mut q, s.as_str()),
        }
        q
    }
}

} // verus!
