//! Searching projects by name.

use vstd::prelude::*;

use crate::query::spec_encode;
use crate::query::spec_pairs_of;
use crate::query::encode_query;
use crate::query::FilterSpec;
use crate::query::FilterValue;
use crate::projects::ListingOrderBy;
use crate::ListingSort;

verus! {

/// A search for projects whose name contains the given text, with its
/// optional filters in declaration order.
#[derive(Debug, Clone)]
pub struct ProjectsLister {
    /// Text contained in the wanted projects' names; it becomes a path
    /// segment of the search endpoint.
    pub query: String,
    pub order_by: Option<ListingOrderBy>,
    pub sort: Option<ListingSort>,
}

impl ProjectsLister {
    /// True when every filter is absent.
    pub open spec fn is_default(self) -> bool {
        self.order_by is None && self.sort is None
    }

    /// The name/value pairs this listing contributes, in declaration order.
    pub open spec fn spec_pairs(self) -> Seq<(Seq<char>, FilterSpec)> {
        let s = Seq::<(Seq<char>, FilterSpec)>::empty();
        let s = if self.order_by is Some {
            s.push(("order_by"@, FilterSpec::Token(self.order_by->Some_0.spec_token())))
        } else {
            s
        };
        let s = if self.sort is Some {
            s.push(("sort"@, FilterSpec::Token(self.sort->Some_0.spec_token())))
        } else {
            s
        };
        s
    }

    /// The exact query this search encodes to: the search text inside the
    /// path, then the filters.
    pub open spec fn spec_query(self) -> Seq<char> {
        spec_encode("projects/search/"@ + self.query@, self.spec_pairs())
    }

    pub fn new(query: String) -> (r: ProjectsLister)
        ensures
            r.query == query,
            r.is_default(),
    {
        ProjectsLister { query, order_by: None, sort: None }
    }

    pub fn order_by(self, order_by: ListingOrderBy) -> (r: ProjectsLister)
        ensures
            r.order_by == Some(order_by),
            r.query == self.query,
            r.sort == self.sort,
    {
        ProjectsLister { order_by: Some(order_by), ..self }
    }

    pub fn sort(self, sort: ListingSort) -> (r: ProjectsLister)
        ensures
            r.sort == Some(sort),
            r.query == self.query,
            r.order_by == self.order_by,
    {
        ProjectsLister { sort: Some(sort), ..self }
    }

    /// Encodes this search as its wire-level query string. The result is a
    /// function of the value alone, so encoding is deterministic and
    /// independent of the order the setters were called in.
    pub fn build_query(&self) -> (r: String)
        ensures
            r@ == self.spec_query(),
    {
        let mut pairs: Vec<(&str, FilterValue)> = Vec::new();
        if let Some(x) = self.order_by {
            pairs.push(("order_by", FilterValue::Token(x.token())));
        }
        if let Some(x) = self.sort {
            pairs.push(("sort", FilterValue::Token(x.token())));
        }
        proof {
            assert(spec_pairs_of(pairs@) =~= self.spec_pairs());
        }
        let mut path = String::from_str("projects/search/");
        path.append(self.query.as_str());
        encode_query(path.as_str(), &pairs)
    }
}


/// A name search with every filter absent encodes to exactly the bare
/// search path, with no trailing `?`.
pub proof fn lemma_default_search_query(l: ProjectsLister)
    requires
        l.is_default(),
    ensures
        l.spec_query() == "projects/search/"@ + l.query@,
{
    assert(l.spec_pairs() =~= Seq::<(Seq<char>, FilterSpec)>::empty());
    crate::query::lemma_encode_no_pairs("projects/search/"@ + l.query@);
}

/// Setting the ordering field and the sort direction commutes: the listing
/// that results, and so its encoded query, does not depend on the order the
/// two setters were called in; the query keeps the declaration order of the
/// filters.
pub proof fn lemma_order_by_sort_commute(
    l: ProjectsLister,
    order_by: ListingOrderBy,
    sort: ListingSort,
)
    ensures
        (ProjectsLister { sort: Some(sort), ..(ProjectsLister { order_by: Some(order_by), ..l }) })
            == (ProjectsLister {
            order_by: Some(order_by),
            ..(ProjectsLister { sort: Some(sort), ..l })
        }),
{
}

} // verus!
