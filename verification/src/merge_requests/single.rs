//! One merge request of one project, by the remote side's id.

use vstd::prelude::*;

use crate::query::spec_i64_dec;
use crate::query::append_i64_dec;

verus! {

/// A request for one merge request of one project.
#[derive(Debug, Clone)]
pub struct MergeRequestLister {
    /// The project the merge request belongs to.
    pub id: i64,
    /// The remote side's id of the merge request.
    pub mr_id: i64,
}

impl MergeRequestLister {
    /// The exact query this request encodes to.
    pub open spec fn spec_query(self) -> Seq<char> {
        "projects/"@ + spec_i64_dec(self.id as int) + "/merge_requests/"@ + spec_i64_dec(
            self.mr_id as int,
        )
    }

    pub fn new(id: i64, mr_id: i64) -> (r: MergeRequestLister)
        ensures
            r.id == id,
            r.mr_id == mr_id,
    {
        MergeRequestLister { id, mr_id }
    }

    /// Encodes this request as its wire-level query string.
    pub fn build_query(&self) -> (r: String)
        ensures
            r@ == self.spec_query(),
    {
        let mut q = String::from_str("projects/");
        append_i64_dec(&mut q, self.id);
        q.append("/merge_requests/");
        append_i64_dec(&mut q, self.mr_id);
        q
    }
}

} // verus!
