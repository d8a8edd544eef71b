//! Every project on the instance (an administrator's listing).

use vstd::prelude::*;

use crate::query::spec_encode;
use crate::query::spec_pairs_of;
use crate::query::encode_query;
use crate::query::FilterSpec;
use crate::query::FilterValue;
use crate::projects::ListingOrderBy;
use crate::ListingSort;
use crate::ListingVisibility;

verus! {

/// A listing of every project, with its optional filters in
/// declaration order.
#[derive(Debug, Clone)]
pub struct ProjectsLister {
    pub archived: Option<bool>,
    pub visibility: Option<ListingVisibility>,
    pub order_by: Option<ListingOrderBy>,
    pub sort: Option<ListingSort>,
    pub search: Option<String>,
}

impl ProjectsLister {
    /// True when every filter is absent.
    pub open spec fn is_default(self) -> bool {
        self.archived is None && self.visibility is None && self.order_by is None && self.sort
            is None && self.search is None
    }

    /// The name/value pairs this listing contributes, in declaration order.
    pub open spec fn spec_pairs(self) -> Seq<(Seq<char>, FilterSpec)> {
        let s = Seq::<(Seq<char>, FilterSpec)>::empty();
        let s = if self.archived is Some {
            s.push(("archived"@, FilterSpec::Flag(self.archived->Some_0)))
        } else {
            s
        };
        let s = if self.visibility is Some {
            s.push(("visibility"@, FilterSpec::Token(self.visibility->Some_0.spec_token())))
        } else {
            s
        };
        let s = if self.order_by is Some {
            s.push(("order_by"@, FilterSpec::Token(self.order_by->Some_0.spec_token())))
        } else {
            s
        };
        let s = if self.sort is Some {
            s.push(("sort"@, FilterSpec::Token(self.sort->Some_0.spec_token())))
        } else {
            s
        };
        let s = if self.search is Some {
            s.push(("search"@, FilterSpec::Text(self.search->Some_0@)))
        } else {
            s
        };
        s
    }

    /// The exact query this listing encodes to.
    pub open spec fn spec_query(self) -> Seq<char> {
        spec_encode("projects/all"@, self.spec_pairs())
    }

    pub fn new() -> (r: ProjectsLister)
        ensures
            r.is_default(),
    {
        ProjectsLister { archived: None, visibility: None, order_by: None, sort: None, search: None }
    }

    pub fn archived(self, archived: bool) -> (r: ProjectsLister)
        ensures
            r.archived == Some(archived),
            r.visibility == self.visibility,
            r.order_by == self.order_by,
            r.sort == self.sort,
            r.search == self.search,
    {
        ProjectsLister { archived: Some(archived), ..self }
    }

    pub fn visibility(self, visibility: ListingVisibility) -> (r: ProjectsLister)
        ensures
            r.visibility == Some(visibility),
            r.archived == self.archived,
            r.order_by == self.order_by,
            r.sort == self.sort,
            r.search == self.search,
    {
        ProjectsLister { visibility: Some(visibility), ..self }
    }

    pub fn order_by(self, order_by: ListingOrderBy) -> (r: ProjectsLister)
        ensures
            r.order_by == Some(order_by),
            r.archived == self.archived,
            r.visibility == self.visibility,
            r.sort == self.sort,
            r.search == self.search,
    {
        ProjectsLister { order_by: Some(order_by), ..self }
    }

    pub fn sort(self, sort: ListingSort) -> (r: ProjectsLister)
        ensures
            r.sort == Some(sort),
            r.archived == self.archived,
            r.visibility == self.visibility,
            r.order_by == self.order_by,
            r.search == self.search,
    {
        ProjectsLister { sort: Some(sort), ..self }
    }

    pub fn search(self, search: String) -> (r: ProjectsLister)
        ensures
            r.search == Some(search),
            r.archived == self.archived,
            r.visibility == self.visibility,
            r.order_by == self.order_by,
            r.sort == self.sort,
    {
        ProjectsLister { search: Some(search), ..self }
    }

    /// Encodes this listing as its wire-level query string. The result is a
    /// function of the listing's value alone, so encoding is deterministic
    /// and independent of the order the setters were called in.
    pub fn build_query(&self) -> (r: String)
        ensures
            r@ == self.spec_query(),
    {
        let mut pairs: Vec<(&str, FilterValue)> = Vec::new();
        if let Some(x) = self.archived {
            pairs.push(("archived", FilterValue::Flag(x)));
        }
        if let Some(x) = self.visibility {
            pairs.push(("visibility", FilterValue::Token(x.token())));
        }
        if let Some(x) = self.order_by {
            pairs.push(("order_by", FilterValue::Token(x.token())));
        }
        if let Some(x) = self.sort {
            pairs.push(("sort", FilterValue::Token(x.token())));
        }
        if let Some(x) = &self.search {
            pairs.push(("search", FilterValue::Text(x.as_str())));
        }
        proof {
            assert(spec_pairs_of(pairs@) =~= self.spec_pairs());
        }
        encode_query("projects/all", &pairs)
    }
}


/// A listing of every project with every filter absent encodes to exactly
/// the bare path, with no trailing `?`.
pub proof fn lemma_default_all_projects_query(l: ProjectsLister)
    requires
        l.is_default(),
    ensures
        l.spec_query() == "projects/all"@,
{
    assert(l.spec_pairs() =~= Seq::<(Seq<char>, FilterSpec)>::empty());
    crate::query::lemma_encode_no_pairs("projects/all"@);
}

} // verus!
