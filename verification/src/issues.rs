//! Issue listings: the caller's issues, a group's, a project's, and one
//! issue by project and issue id.

use vstd::prelude::*;

use crate::query::spec_encode;
use crate::query::spec_pairs_of;
use crate::query::encode_query;
use crate::query::FilterSpec;
use crate::query::FilterValue;
use crate::ListingSort;
use crate::Milestone;
use crate::User;

pub mod group;
pub mod project;
pub mod single;

verus! {

/// Issue state an issue listing can be limited to.
#[derive(Debug, Clone, Copy, PartialEq, Eq, Structural)]
pub enum State {
    Opened,
    Closed,
}

impl State {
    /// Wire token sent for this state filter.
    pub open spec fn spec_token(self) -> Seq<char> {
        match self {
            State::Opened => "opened"@,
            State::Closed => "closed"@,
        }
    }

    pub fn token(self) -> (r: &'static str)
        ensures
            r@ == self.spec_token(),
    {
        match self {
            State::Opened => "opened",
            State::Closed => "closed",
        }
    }
}

/// Field an issue listing can be ordered by.
#[derive(Debug, Clone, Copy, PartialEq, Eq, Structural)]
pub enum ListingOrderBy {
    CreatedAt,
    UpdatedAt,
}

impl ListingOrderBy {
    /// Wire token sent for this ordering field.
    pub open spec fn spec_token(self) -> Seq<char> {
        match self {
            ListingOrderBy::CreatedAt => "created_at"@,
            ListingOrderBy::UpdatedAt => "updated_at"@,
        }
    }

    pub fn token(self) -> (r: &'static str)
        ensures
            r@ == self.spec_token(),
    {
        match self {
            ListingOrderBy::CreatedAt => "created_at",
            ListingOrderBy::UpdatedAt => "updated_at",
        }
    }
}

/// An issue's state as the remote side reports it.
#[derive(Debug, Clone, Copy, PartialEq, Eq, Structural)]
pub enum IssueState {
    Opened,
    Closed,
    Reopened,
}

/// One issue as the remote side describes it.
#[derive(Debug, Clone)]
pub struct Issue {
    pub id: i64,
    pub iid: i64,
    pub project_id: i64,
    pub title: String,
    pub description: String,
    pub state: IssueState,
    pub created_at: String,
    pub updated_at: String,
    pub labels: Vec<String>,
    pub milestone: Option<Milestone>,
    pub assignee: Option<User>,
    pub author: User,
    pub subscribed: bool,
    pub user_notes_count: i64,
    pub upvotes: i64,
    pub downvotes: i64,
    pub due_date: Option<String>,
    pub confidential: bool,
    pub web_url: Option<String>,
}

pub type Issues = Vec<Issue>;

impl Issue {
    /// True exactly when this issue carries the given user-facing sequence
    /// number: the predicate the paginated issue resolution uses, since the
    /// remote side looks items up by its internal id, not by `iid`.
    pub fn has_iid(&self, iid: i64) -> (r: bool)
        ensures
            r == (self.iid == iid),
    {
        self.iid == iid
    }
}

/// A listing of the issues the caller created, with its optional filters in
/// declaration order.
#[derive(Debug, Clone)]
pub struct IssuesLister {
    pub state: Option<State>,
    pub labels: Option<Vec<String>>,
    pub order_by: Option<ListingOrderBy>,
    pub sort: Option<ListingSort>,
}

impl IssuesLister {
    /// True when every filter is absent.
    pub open spec fn is_default(self) -> bool {
        self.state is None && self.labels is None && self.order_by is None && self.sort is None
    }

    /// The name/value pairs this listing contributes, in declaration order.
    pub open spec fn spec_pairs(self) -> Seq<(Seq<char>, FilterSpec)> {
        let s = Seq::<(Seq<char>, FilterSpec)>::empty();
        let s = if self.state is Some {
            s.push(("state"@, FilterSpec::Token(self.state->Some_0.spec_token())))
        } else {
            s
        };
        let s = if self.labels is Some {
            s.push(("labels"@, FilterSpec::CommaList(self.labels->Some_0.deep_view())))
        } else {
            s
        };
        let s = if self.order_by is Some {
            s.push(("order_by"@, FilterSpec::Token(self.order_by->Some_0.spec_token())))
        } else {
            s
        };
        let s = if self.sort is Some {
            s.push(("sort"@, FilterSpec::Token(self.sort->Some_0.spec_token())))
        } else {
            s
        };
        s
    }

    /// The exact query this listing encodes to.
    pub open spec fn spec_query(self) -> Seq<char> {
        spec_encode("issues"@, self.spec_pairs())
    }

    pub fn new() -> (r: IssuesLister)
        ensures
            r.is_default(),
    {
        IssuesLister { state: None, labels: None, order_by: None, sort: None }
    }

    /// Moves on to listing a group's issues.
    pub fn group(self, id: i64) -> (r: group::IssuesLister)
        ensures
            r.id == id,
            r.is_default(),
    {
        group::IssuesLister::new(id)
    }

    /// Moves on to listing a project's issues.
    pub fn project(self, id: i64) -> (r: project::IssuesLister)
        ensures
            r.id == id,
            r.is_default(),
    {
        project::IssuesLister::new(id)
    }

    /// Moves on to asking for one issue of one project.
    pub fn single(self, id: i64, issue_id: i64) -> (r: single::IssueLister)
        ensures
            r.id == id,
            r.issue_id == issue_id,
    {
        single::IssueLister::new(id, issue_id)
    }

    pub fn state(self, state: State) -> (r: IssuesLister)
        ensures
            r.state == Some(state),
            r.labels == self.labels,
            r.order_by == self.order_by,
            r.sort == self.sort,
    {
        IssuesLister { state: Some(state), ..self }
    }

    pub fn labels(self, labels: Vec<String>) -> (r: IssuesLister)
        ensures
            r.labels == Some(labels),
            r.state == self.state,
            r.order_by == self.order_by,
            r.sort == self.sort,
    {
        IssuesLister { labels: Some(labels), ..self }
    }

    pub fn order_by(self, order_by: ListingOrderBy) -> (r: IssuesLister)
        ensures
            r.order_by == Some(order_by),
            r.state == self.state,
            r.labels == self.labels,
            r.sort == self.sort,
    {
        IssuesLister { order_by: Some(order_by), ..self }
    }

    pub fn sort(self, sort: ListingSort) -> (r: IssuesLister)
        ensures
            r.sort == Some(sort),
            r.state == self.state,
            r.labels == self.labels,
            r.order_by == self.order_by,
    {
        IssuesLister { sort: Some(sort), ..self }
    }

    /// Encodes this listing as its wire-level query string. The result is a
    /// function of the listing's value alone, so encoding is deterministic
    /// and independent of the order the setters were called in.
    pub fn build_query(&self) -> (r: String)
        ensures
            r@ == self.spec_query(),
    {
        let mut pairs: Vec<(&str, FilterValue)> = Vec::new();
        if let Some(x) = self.state {
            pairs.push(("state", FilterValue::Token(x.token())));
        }
        if let Some(x) = &self.labels {
            pairs.push(("labels", FilterValue::CommaList(x)));
        }
        if let Some(x) = self.order_by {
            pairs.push(("order_by", FilterValue::Token(x.token())));
        }
        if let Some(x) = self.sort {
            pairs.push(("sort", FilterValue::Token(x.token())));
        }
        proof {
            assert(spec_pairs_of(pairs@) =~= self.spec_pairs());
        }
        encode_query("issues", &pairs)
    }
}


/// An issue listing with every filter absent encodes to exactly the bare
/// path, with no trailing `?`.
pub proof fn lemma_default_issues_query(l: IssuesLister)
    requires
        l.is_default(),
    ensures
        l.spec_query() == "issues"@,
{
    assert(l.spec_pairs() =~= Seq::<(Seq<char>, FilterSpec)>::empty());
    crate::query::lemma_encode_no_pairs("issues"@);
}

} // verus!
