//! One issue of one project, by the remote side's issue id.

use vstd::prelude::*;

use crate::query::spec_i64_dec;
use crate::query::append_i64_dec;

verus! {

/// A request for one issue of one project.
#[derive(Debug, Clone)]
pub struct IssueLister {
    /// The project the issue belongs to.
    pub id: i64,
    /// The remote side's id of the issue.
    pub issue_id: i64,
}

impl IssueLister {
    /// The exact query this request encodes to.
    pub open spec fn spec_query(self) -> Seq<char> {
        "projects/"@ + spec_i64_dec(self.id as int) + "/issues/"@ + spec_i64_dec(
            self.issue_id as int,
        )
    }

    pub fn new(id: i64, issue_id: i64) -> (r: IssueLister)
        ensures
            r.id == id,
            r.issue_id == issue_id,
    {
        IssueLister { id, issue_id }
    }

    /// Encodes this request as its wire-level query string.
    pub fn build_query(&self) -> (r: String)
        ensures
            r@ == self.spec_query(),
    {
        let mut q = String::from_str("projects/");
        append_i64_dec(&mut q, self.id);
        q.append("/issues/");
        append_i64_dec(&mut q, self.issue_id);
        q
    }
}

} // verus!
