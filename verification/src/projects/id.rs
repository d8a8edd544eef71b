//! One project, designated by id or namespaced path.

use vstd::prelude::*;

use crate::projects::ListingId;
use crate::query::append_escaped_segment;
use crate::query::append_i64_dec;
use crate::query::spec_escape_segment;
use crate::query::spec_i64_dec;

verus! {

/// A request for one project.
#[derive(Debug, Clone)]
pub struct ProjectsLister {
    /// The project asked about.
    pub id: ListingId,
}

impl ProjectsLister {
    /// The designator as it appears in the path: a numeric id in decimal, a
    /// namespaced `namespace/project` path as one escaped segment (its `/`
    /// becomes `%2F`).
    pub open spec fn spec_id_segment(self) -> Seq<char> {
        match self.id {
            ListingId::Id(n) => spec_i64_dec(n as int),
            ListingId::NamespaceProject(s) => spec_escape_segment(s@),
        }
    }

    /// The exact query this request encodes to.
    pub open spec fn spec_query(self) -> Seq<char> {
        "projects/"@ + self.spec_id_segment()
    }

    pub fn new(id: ListingId) -> (r: ProjectsLister)
        ensures
            r.id == id,
    {
        ProjectsLister { id }
    }

    /// Encodes this request as its wire-level query string.
    pub fn build_query(&self) -> (r: String)
        ensures
            r@ == self.spec_query(),
    {
        let mut q = String::from_str("projects/");
        match &self.id {
            ListingId::Id(n) => append_i64_dec(&mut q, *n),
            ListingId::NamespaceProject(s) => append_escaped_segment(&mut q, s.as_str()),
        }
        q
    }
}

} // verus!
