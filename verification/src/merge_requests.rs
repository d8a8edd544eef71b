//! Merge-request listings: one project's merge requests, and one merge
//! request by the remote side's id.

use vstd::prelude::*;

use crate::query::spec_encode;
use crate::query::spec_pairs_of;
use crate::query::spec_i64_dec;
use crate::query::append_i64_dec;
use crate::query::encode_query;
use crate::query::FilterSpec;
use crate::query::FilterValue;
use crate::ListingSort;
use crate::Milestone;
use crate::User;

pub mod single;

verus! {

/// Merge-request state a listing can be limited to.
#[derive(Debug, Clone, Copy, PartialEq, Eq, Structural)]
pub enum State {
    Merged,
    Opened,
    Closed,
    All,
}

impl State {
    /// Wire token sent for this state filter.
    pub open spec fn spec_token(self) -> Seq<char> {
        match self {
            State::Merged => "merged"@,
            State::Opened => "opened"@,
            State::Closed => "closed"@,
            State::All => "all"@,
        }
    }

    pub fn token(self) -> (r: &'static str)
        ensures
            r@ == self.spec_token(),
    {
        match self {
            State::Merged => "merged",
            State::Opened => "opened",
            State::Closed => "closed",
            State::All => "all",
        }
    }
}

/// A merge request's mergeability as the remote side reports it.
#[derive(Debug, Clone, Copy, PartialEq, Eq, Structural)]
pub enum Status {
    CanBeMerged,
    CannotBeMerged,
    Unchecked,
}

/// Field a merge-request listing can be ordered by.
#[derive(Debug, Clone, Copy, PartialEq, Eq, Structural)]
pub enum ListingOrderBy {
    CreatedAt,
    UpdatedAt,
}

impl ListingOrderBy {
    /// Wire token sent for this ordering field.
    pub open spec fn spec_token(self) -> Seq<char> {
        match self {
            ListingOrderBy::CreatedAt => "created_at"@,
            ListingOrderBy::UpdatedAt => "updated_at"@,
        }
    }

    pub fn token(self) -> (r: &'static str)
        ensures
            r@ == self.spec_token(),
    {
        match self {
            ListingOrderBy::CreatedAt => "created_at",
            ListingOrderBy::UpdatedAt => "updated_at",
        }
    }
}

/// One merge request as the remote side describes it.
#[derive(Debug, Clone)]
pub struct MergeRequest {
    pub id: i64,
    pub iid: i64,
    pub project_id: i64,
    pub title: String,
    pub description: String,
    pub state: State,
    pub created_at: String,
    pub updated_at: String,
    pub target_branch: String,
    pub source_branch: String,
    pub upvotes: i64,
    pub downvotes: i64,
    pub author: User,
    pub assignee: Option<User>,
    pub source_project_id: i64,
    pub target_project_id: i64,
    pub labels: Vec<String>,
    pub work_in_progress: bool,
    pub milestone: Option<Milestone>,
    pub merge_when_build_succeeds: bool,
    pub merge_status: Status,
    pub sha: Option<String>,
    pub merge_commit_sha: Option<String>,
    pub subscribed: bool,
    pub user_notes_count: i64,
    pub should_remove_source_branch: Option<bool>,
    pub force_remove_source_branch: Option<bool>,
    pub web_url: String,
}

pub type MergeRequests = Vec<MergeRequest>;

impl MergeRequest {
    /// True exactly when this merge request carries the given user-facing
    /// sequence number: the predicate the paginated merge-request
    /// resolution uses.
    pub fn has_iid(&self, iid: i64) -> (r: bool)
        ensures
            r == (self.iid == iid),
    {
        self.iid == iid
    }
}

/// A listing of one project's merge requests, with its optional filters in
/// declaration order.
#[derive(Debug, Clone)]
pub struct MergeRequestsLister {
    /// The project whose merge requests are listed.
    pub id: i64,
    pub iid: Option<Vec<i64>>,
    pub state: Option<State>,
    pub order_by: Option<ListingOrderBy>,
    pub sort: Option<ListingSort>,
}

impl MergeRequestsLister {
    /// True when every filter is absent.
    pub open spec fn is_default(self) -> bool {
        self.iid is None && self.state is None && self.order_by is None && self.sort is None
    }

    /// The name/value pairs this listing contributes, in declaration order.
    pub open spec fn spec_pairs(self) -> Seq<(Seq<char>, FilterSpec)> {
        let s = Seq::<(Seq<char>, FilterSpec)>::empty();
        let s = if self.iid is Some {
            s.push(("iid"@, FilterSpec::NumList(self.iid->Some_0@)))
        } else {
            s
        };
        let s = if self.state is Some {
            s.push(("state"@, FilterSpec::Token(self.state->Some_0.spec_token())))
        } else {
            s
        };
        let s = if self.order_by is Some {
            s.push(("order_by"@, FilterSpec::Token(self.order_by->Some_0.spec_token())))
        } else {
            s
        };
        let s = if self.sort is Some {
            s.push(("sort"@, FilterSpec::Token(self.sort->Some_0.spec_token())))
        } else {
            s
        };
        s
    }

    /// The exact query this listing encodes to.
    pub open spec fn spec_query(self) -> Seq<char> {
        spec_encode(
            "projects/"@ + spec_i64_dec(self.id as int) + "/merge_requests"@,
            self.spec_pairs(),
        )
    }

    pub fn new(id: i64) -> (r: MergeRequestsLister)
        ensures
            r.id == id,
            r.is_default(),
    {
        MergeRequestsLister { id, iid: None, state: None, order_by: None, sort: None }
    }

    /// Moves on to asking for one merge request of this project.
    pub fn single(self, merge_request_id: i64) -> (r: single::MergeRequestLister)
        ensures
            r.id == self.id,
            r.mr_id == merge_request_id,
    {
        single::MergeRequestLister::new(self.id, merge_request_id)
    }

    pub fn iid(self, iid: Vec<i64>) -> (r: MergeRequestsLister)
        ensures
            r.iid == Some(iid),
            r.id == self.id,
            r.state == self.state,
            r.order_by == self.order_by,
            r.sort == self.sort,
    {
        MergeRequestsLister { iid: Some(iid), ..self }
    }

    pub fn state(self, state: State) -> (r: MergeRequestsLister)
        ensures
            r.state == Some(state),
            r.id == self.id,
            r.iid == self.iid,
            r.order_by == self.order_by,
            r.sort == self.sort,
    {
        MergeRequestsLister { state: Some(state), ..self }
    }

    pub fn order_by(self, order_by: ListingOrderBy) -> (r: MergeRequestsLister)
        ensures
            r.order_by == Some(order_by),
            r.id == self.id,
            r.iid == self.iid,
            r.state == self.state,
            r.sort == self.sort,
    {
        MergeRequestsLister { order_by: Some(order_by), ..self }
    }

    pub fn sort(self, sort: ListingSort) -> (r: MergeRequestsLister)
        ensures
            r.sort == Some(sort),
            r.id == self.id,
            r.iid == self.iid,
            r.state == self.state,
            r.order_by == self.order_by,
    {
        MergeRequestsLister { sort: Some(sort), ..self }
    }

    /// Encodes this listing as its wire-level query string. The result is a
    /// function of the listing's value alone, so encoding is deterministic
    /// and independent of the order the setters were called in.
    pub fn build_query(&self) -> (r: String)
        ensures
            r@ == self.spec_query(),
    {
        let mut pairs: Vec<(&str, FilterValue)> = Vec::new();
        if let Some(x) = &self.iid {
            pairs.push(("iid", FilterValue::NumList(x)));
        }
        if let Some(x) = self.state {
            pairs.push(("state", FilterValue::Token(x.token())));
        }
        if let Some(x) = self.order_by {
            pairs.push(("order_by", FilterValue::Token(x.token())));
        }
        if let Some(x) = self.sort {
            pairs.push(("sort", FilterValue::Token(x.token())));
        }
        proof {
            assert(spec_pairs_of(pairs@) =~= self.spec_pairs());
        }
        let mut path = String::from_str("projects/");
        append_i64_dec(&mut path, self.id);
        path.append("/merge_requests");
        encode_query(path.as_str(), &pairs)
    }
}


/// A merge-request listing with every filter absent encodes to exactly the
/// bare path, with no trailing `?`.
pub proof fn lemma_default_merge_requests_query(l: MergeRequestsLister)
    requires
        l.is_default(),
    ensures
        l.spec_query() == "projects/"@ + spec_i64_dec(l.id as int) + "/merge_requests"@,
{
    assert(l.spec_pairs() =~= Seq::<(Seq<char>, FilterSpec)>::empty());
    crate::query::lemma_encode_no_pairs(
        "projects/"@ + spec_i64_dec(l.id as int) + "/merge_requests"@,
    );
}

} // verus!
