//! One group's projects.

use vstd::prelude::*;

use crate::query::spec_encode;
use crate::query::spec_pairs_of;
use crate::query::spec_i64_dec;
use crate::query::append_i64_dec;
use crate::query::encode_query;
use crate::query::FilterSpec;
use crate::query::FilterValue;
use crate::projects::ListingOrderBy;
use crate::ListingSort;
use crate::ListingVisibility;

verus! {

/// A listing of one group's projects, with its optional filters in
/// declaration order.
#[derive(Debug, Clone)]
pub struct ProjectsLister {
    /// The group whose projects are listed.
    pub id: i64,
    pub archived: Option<bool>,
    pub visibility: Option<ListingVisibility>,
    pub order_by: Option<ListingOrderBy>,
    pub sort: Option<ListingSort>,
    pub search: Option<String>,
    pub ci_enabled_first: Option<bool>,
}

impl ProjectsLister {
    /// True when every filter is absent.
    pub open spec fn is_default(self) -> bool {
        self.archived is None && self.visibility is None && self.order_by is None && self.sort
            is None && self.search is None && self.ci_enabled_first is None
    }

    /// The name/value pairs this listing contributes, in declaration order.
    pub open spec fn spec_pairs(self) -> Seq<(Seq<char>, FilterSpec)> {
        let s = Seq::<(Seq<char>, FilterSpec)>::empty();
        let s = if self.archived is Some {
            s.push(("archived"@, FilterSpec::Flag(self.archived->Some_0)))
        } else {
            s
        };
        let s = if self.visibility is Some {
            s.push(("visibility"@, FilterSpec::Token(self.visibility->Some_0.spec_token())))
        } else {
            s
        };
        let s = if self.order_by is Some {
            s.push(("order_by"@, FilterSpec::Token(self.order_by->Some_0.spec_token())))
        } else {
            s
        };
        let s = if self.sort is Some {
            s.push(("sort"@, FilterSpec::Token(self.sort->Some_0.spec_token())))
        } else {
            s
        };
        let s = if self.search is Some {
            s.push(("search"@, FilterSpec::Text(self.search->Some_0@)))
        } else {
            s
        };
        let s = if self.ci_enabled_first is Some {
            s.push(("ci_enabled_first"@, FilterSpec::Flag(self.ci_enabled_first->Some_0)))
        } else {
            s
        };
        s
    }

    /// The exact query this listing encodes to.
    pub open spec fn spec_query(self) -> Seq<char> {
        spec_encode("groups/"@ + spec_i64_dec(self.id as int) + "/projects"@, self.spec_pairs())
    }

    pub fn new(id: i64) -> (r: ProjectsLister)
        ensures
            r.id == id,
            r.is_default(),
    {
        ProjectsLister {
            id,
            archived: None,
            visibility: None,
            order_by: None,
            sort: None,
            search: None,
            ci_enabled_first: None,
        }
    }

    pub fn archived(self, archived: bool) -> (r: ProjectsLister)
        ensures
            r.archived == Some(archived),
            r.id == self.id,
            r.visibility == self.visibility,
            r.order_by == self.order_by,
            r.sort == self.sort,
            r.search == self.search,
            r.ci_enabled_first == self.ci_enabled_first,
    {
        ProjectsLister { archived: Some(archived), ..self }
    }

    pub fn visibility(self, visibility: ListingVisibility) -> (r: ProjectsLister)
        ensures
            r.visibility == Some(visibility),
            r.id == self.id,
            r.archived == self.archived,
            r.order_by == self.order_by,
            r.sort == self.sort,
            r.search == self.search,
            r.ci_enabled_first == self.ci_enabled_first,
    {
        ProjectsLister { visibility: Some(visibility), ..self }
    }

    pub fn order_by(self, order_by: ListingOrderBy) -> (r: ProjectsLister)
        ensures
            r.order_by == Some(order_by),
            r.id == self.id,
            r.archived == self.archived,
            r.visibility == self.visibility,
            r.sort == self.sort,
            r.search == self.search,
            r.ci_enabled_first == self.ci_enabled_first,
    {
        ProjectsLister { order_by: Some(order_by), ..self }
    }

    pub fn sort(self, sort: ListingSort) -> (r: ProjectsLister)
        ensures
            r.sort == Some(sort),
            r.id == self.id,
            r.archived == self.archived,
            r.visibility == self.visibility,
            r.order_by == self.order_by,
            r.search == self.search,
            r.ci_enabled_first == self.ci_enabled_first,
    {
        ProjectsLister { sort: Some(sort), ..self }
    }

    pub fn search(self, search: String) -> (r: ProjectsLister)
        ensures
            r.search == Some(search),
            r.id == self.id,
            r.archived == self.archived,
            r.visibility == self.visibility,
            r.order_by == self.order_by,
            r.sort == self.sort,
            r.ci_enabled_first == self.ci_enabled_first,
    {
        ProjectsLister { search: Some(search), ..self }
    }

    pub fn ci_enabled_first(self, ci_enabled_first: bool) -> (r: ProjectsLister)
        ensures
            r.ci_enabled_first == Some(ci_enabled_first),
            r.id == self.id,
            r.archived == self.archived,
            r.visibility == self.visibility,
            r.order_by == self.order_by,
            r.sort == self.sort,
            r.search == self.search,
    {
        ProjectsLister { ci_enabled_first: Some(ci_enabled_first), ..self }
    }

    /// Encodes this listing as its wire-level query string. The result is a
    /// function of the listing's value alone, so encoding is deterministic
    /// and independent of the order the setters were called in.
    pub fn build_query(&self) -> (r: String)
        ensures
            r@ == self.spec_query(),
    {
        let mut pairs: Vec<(&str, FilterValue)> = Vec::new();
        if let Some(x) = self.archived {
            pairs.push(("archived", FilterValue::Flag(x)));
        }
        if let Some(x) = self.visibility {
            pairs.push(("visibility", FilterValue::Token(x.token())));
        }
        if let Some(x) = self.order_by {
            pairs.push(("order_by", FilterValue::Token(x.token())));
        }
        if let Some(x) = self.sort {
            pairs.push(("sort", FilterValue::Token(x.token())));
        }
        if let Some(x) = &self.search {
            pairs.push(("search", FilterValue::Text(x.as_str())));
        }
        if let Some(x) = self.ci_enabled_first {
            pairs.push(("ci_enabled_first", FilterValue::Flag(x)));
        }
        proof {
            assert(spec_pairs_of(pairs@) =~= self.spec_pairs());
        }
        let mut path = String::from_str("groups/");
        append_i64_dec(&mut path, self.id);
        path.append("/projects");
        encode_query(path.as_str(), &pairs)
    }
}


/// A group-projects listing with every filter absent encodes to exactly
/// the bare path, with no trailing `?`.
pub proof fn lemma_default_group_projects_query(l: ProjectsLister)
    requires
        l.is_default(),
    ensures
        l.spec_query() == "groups/"@ + spec_i64_dec(l.id as int) + "/projects"@,
{
    assert(l.spec_pairs() =~= Seq::<(Seq<char>, FilterSpec)>::empty());
    crate::query::lemma_encode_no_pairs("groups/"@ + spec_i64_dec(l.id as int) + "/projects"@);
}

} // verus!
