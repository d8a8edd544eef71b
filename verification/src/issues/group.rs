//! One group's issues.

use vstd::prelude::*;

use crate::query::spec_encode;
use crate::query::spec_pairs_of;
use crate::query::spec_i64_dec;
use crate::query::append_i64_dec;
use crate::query::encode_query;
use crate::query::FilterSpec;
use crate::query::FilterValue;
use crate::issues::ListingOrderBy;
use crate::issues::State;
use crate::ListingSort;

verus! {

/// A listing of one group's issues, with its optional filters in
/// declaration order.
#[derive(Debug, Clone)]
pub struct IssuesLister {
    /// The group whose issues are listed.
    pub id: i64,
    pub state: Option<State>,
    pub labels: Option<Vec<String>>,
    pub milestone: Option<String>,
    pub order_by: Option<ListingOrderBy>,
    pub sort: Option<ListingSort>,
}

impl IssuesLister {
    /// True when every filter is absent.
    pub open spec fn is_default(self) -> bool {
        self.state is None && self.labels is None && self.milestone is None && self.order_by
            is None && self.sort is None
    }

    /// The name/value pairs this listing contributes, in declaration order.
    pub open spec fn spec_pairs(self) -> Seq<(Seq<char>, FilterSpec)> {
        let s = Seq::<(Seq<char>, FilterSpec)>::empty();
        let s = if self.state is Some {
            s.push(("state"@, FilterSpec::Token(self.state->Some_0.spec_token())))
        } else {
            s
        };
        let s = if self.labels is Some {
            s.push(("labels"@, FilterSpec::CommaList(self.labels->Some_0.deep_view())))
        } else {
            s
        };
        let s = if self.milestone is Some {
            s.push(("milestone"@, FilterSpec::Text(self.milestone->Some_0@)))
        } else {
            s
        };
        let s = if self.order_by is Some {
            s.push(("order_by"@, FilterSpec::Token(self.order_by->Some_0.spec_token())))
        } else {
            s
        };
        let s = if self.sort is Some {
            s.push(("sort"@, FilterSpec::Token(self.sort->Some_0.spec_token())))
        } else {
            s
        };
        s
    }

    /// The exact query this listing encodes to.
    pub open spec fn spec_query(self) -> Seq<char> {
        spec_encode("groups/"@ + spec_i64_dec(self.id as int) + "/issues"@, self.spec_pairs())
    }

    pub fn new(id: i64) -> (r: IssuesLister)
        ensures
            r.id == id,
            r.is_default(),
    {
        IssuesLister { id, state: None, labels: None, milestone: None, order_by: None, sort: None }
    }

    pub fn state(self, state: State) -> (r: IssuesLister)
        ensures
            r.state == Some(state),
            r.id == self.id,
            r.labels == self.labels,
            r.milestone == self.milestone,
            r.order_by == self.order_by,
            r.sort == self.sort,
    {
        IssuesLister { state: Some(state), ..self }
    }

    pub fn labels(self, labels: Vec<String>) -> (r: IssuesLister)
        ensures
            r.labels == Some(labels),
            r.id == self.id,
            r.state == self.state,
            r.milestone == self.milestone,
            r.order_by == self.order_by,
            r.sort == self.sort,
    {
        IssuesLister { labels: Some(labels), ..self }
    }

    pub fn milestone(self, milestone: String) -> (r: IssuesLister)
        ensures
            r.milestone == Some(milestone),
            r.id == self.id,
            r.state == self.state,
            r.labels == self.labels,
            r.order_by == self.order_by,
            r.sort == self.sort,
    {
        IssuesLister { milestone: Some(milestone), ..self }
    }

    pub fn order_by(self, order_by: ListingOrderBy) -> (r: IssuesLister)
        ensures
            r.order_by == Some(order_by),
            r.id == self.id,
            r.state == self.state,
            r.labels == self.labels,
            r.milestone == self.milestone,
            r.sort == self.sort,
    {
        IssuesLister { order_by: Some(order_by), ..self }
    }

    pub fn sort(self, sort: ListingSort) -> (r: IssuesLister)
        ensures
            r.sort == Some(sort),
            r.id == self.id,
            r.state == self.state,
            r.labels == self.labels,
            r.milestone == self.milestone,
            r.order_by == self.order_by,
    {
        IssuesLister { sort: Some(sort), ..self }
    }

    /// Encodes this listing as its wire-level query string. The result is a
    /// function of the listing's value alone, so encoding is deterministic
    /// and independent of the order the setters were called in.
    pub fn build_query(&self) -> (r: String)
        ensures
            r@ == self.spec_query(),
    {
        let mut pairs: Vec<(&str, FilterValue)> = Vec::new();
        if let Some(x) = self.state {
            pairs.push(("state", FilterValue::Token(x.token())));
        }
        if let Some(x) = &self.labels {
            pairs.push(("labels", FilterValue::CommaList(x)));
        }
        if let Some(x) = &self.milestone {
            pairs.push(("milestone", FilterValue::Text(x.as_str())));
        }
        if let Some(x) = self.order_by {
            pairs.push(("order_by", FilterValue::Token(x.token())));
        }
        if let Some(x) = self.sort {
            pairs.push(("sort", FilterValue::Token(x.token())));
        }
        proof {
            assert(spec_pairs_of(pairs@) =~= self.spec_pairs());
        }
        let mut path = String::from_str("groups/");
        append_i64_dec(&mut path, self.id);
        path.append("/issues");
        encode_query(path.as_str(), &pairs)
    }
}


/// A group issue listing with every filter absent encodes to exactly the
/// bare path, with no trailing `?`.
pub proof fn lemma_default_group_issues_query(l: IssuesLister)
    requires
        l.is_default(),
    ensures
        l.spec_query() == "groups/"@ + spec_i64_dec(l.id as int) + "/issues"@,
{
    assert(l.spec_pairs() =~= Seq::<(Seq<char>, FilterSpec)>::empty());
    crate::query::lemma_encode_no_pairs("groups/"@ + spec_i64_dec(l.id as int) + "/issues"@);
}

} // verus!
