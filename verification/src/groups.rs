//! Group listings: all visible groups, owned groups, one group's details,
//! and one group's projects.

use vstd::prelude::*;

use crate::query::spec_encode;
use crate::query::spec_pairs_of;
use crate::query::encode_query;
use crate::query::FilterSpec;
use crate::query::FilterValue;
use crate::ListingSort;

pub mod details;
pub mod owned;
pub mod owned_groups;
pub mod projects;

verus! {

/// Field a group listing can be ordered by.
#[derive(Debug, Clone, Copy, PartialEq, Eq, Structural)]
pub enum ListingOrderBy {
    Name,
    Path,
}

impl ListingOrderBy {
    /// Wire token sent for this ordering field.
    pub open spec fn spec_token(self) -> Seq<char> {
        match self {
            ListingOrderBy::Name => "name"@,
            ListingOrderBy::Path => "path"@,
        }
    }

    pub fn token(self) -> (r: &'static str)
        ensures
            r@ == self.spec_token(),
    {
        match self {
            ListingOrderBy::Name => "name",
            ListingOrderBy::Path => "path",
        }
    }
}

/// A group designator: either the numeric id or a namespaced path.
#[derive(Debug, Clone)]
pub enum ListingId {
    Id(i64),
    NamespaceProject(String),
}

/// A listing of the groups visible to the caller, with its optional filters
/// in declaration order. Each setter returns the updated listing, so calls
/// chain; the query text depends only on the resulting value.
#[derive(Debug, Clone)]
pub struct GroupsLister {
    pub skip_groups: Option<Vec<i64>>,
    pub all_available: Option<bool>,
    pub search: Option<String>,
    pub order_by: Option<ListingOrderBy>,
    pub sort: Option<ListingSort>,
}

impl GroupsLister {
    /// True when every filter is absent.
    pub open spec fn is_default(self) -> bool {
        self.skip_groups is None && self.all_available is None && self.search is None
            && self.order_by is None && self.sort is None
    }

    /// The name/value pairs this listing contributes, in declaration order.
    pub open spec fn spec_pairs(self) -> Seq<(Seq<char>, FilterSpec)> {
        let s = Seq::<(Seq<char>, FilterSpec)>::empty();
        let s = if self.skip_groups is Some {
            s.push(("skip_groups"@, FilterSpec::NumList(self.skip_groups->Some_0@)))
        } else {
            s
        };
        let s = if self.all_available is Some {
            s.push(("all_available"@, FilterSpec::Flag(self.all_available->Some_0)))
        } else {
            s
        };
        let s = if self.search is Some {
            s.push(("search"@, FilterSpec::Text(self.search->Some_0@)))
        } else {
            s
        };
        let s = if self.order_by is Some {
            s.push(("order_by"@, FilterSpec::Token(self.order_by->Some_0.spec_token())))
        } else {
            s
        };
        let s = if self.sort is Some {
            s.push(("sort"@, FilterSpec::Token(self.sort->Some_0.spec_token())))
        } else {
            s
        };
        s
    }

    /// The exact query this listing encodes to.
    pub open spec fn spec_query(self) -> Seq<char> {
        spec_encode("groups"@, self.spec_pairs())
    }

    pub fn new() -> (r: GroupsLister)
        ensures
            r.is_default(),
    {
        GroupsLister {
            skip_groups: None,
            all_available: None,
            search: None,
            order_by: None,
            sort: None,
        }
    }

    /// Moves on to asking for one group's details.
    pub fn details(self, id: ListingId) -> (r: details::GroupLister)
        ensures
            r.id == id,
    {
        details::GroupLister::new(id)
    }

    /// Moves on to listing the groups the caller owns.
    pub fn owned(self) -> (r: owned::GroupsLister) {
        owned::GroupsLister::new()
    }

    /// Moves on to listing one group's projects.
    pub fn projects(self, id: i64) -> (r: projects::ProjectsLister)
        ensures
            r.id == id,
            r.is_default(),
    {
        projects::ProjectsLister::new(id)
    }

    pub fn skip_groups(self, skip_groups: Vec<i64>) -> (r: GroupsLister)
        ensures
            r.skip_groups == Some(skip_groups),
            r.all_available == self.all_available,
            r.search == self.search,
            r.order_by == self.order_by,
            r.sort == self.sort,
    {
        GroupsLister { skip_groups: Some(skip_groups), ..self }
    }

    pub fn all_available(self, all_available: bool) -> (r: GroupsLister)
        ensures
            r.all_available == Some(all_available),
            r.skip_groups == self.skip_groups,
            r.search == self.search,
            r.order_by == self.order_by,
            r.sort == self.sort,
    {
        GroupsLister { all_available: Some(all_available), ..self }
    }

    pub fn search(self, search: String) -> (r: GroupsLister)
        ensures
            r.search == Some(search),
            r.skip_groups == self.skip_groups,
            r.all_available == self.all_available,
            r.order_by == self.order_by,
            r.sort == self.sort,
    {
        GroupsLister { search: Some(search), ..self }
    }

    pub fn order_by(self, order_by: ListingOrderBy) -> (r: GroupsLister)
        ensures
            r.order_by == Some(order_by),
            r.skip_groups == self.skip_groups,
            r.all_available == self.all_available,
            r.search == self.search,
            r.sort == self.sort,
    {
        GroupsLister { order_by: Some(order_by), ..self }
    }

    pub fn sort(self, sort: ListingSort) -> (r: GroupsLister)
        ensures
            r.sort == Some(sort),
            r.skip_groups == self.skip_groups,
            r.all_available == self.all_available,
            r.search == self.search,
            r.order_by == self.order_by,
    {
        GroupsLister { sort: Some(sort), ..self }
    }

    /// Encodes this listing as its wire-level query string. The result is a
    /// function of the listing's value alone, so encoding is deterministic
    /// and independent of the order the setters were called in.
    pub fn build_query(&self) -> (r: String)
        ensures
            r@ == self.spec_query(),
    {
        let mut pairs: Vec<(&str, FilterValue)> = Vec::new();
        if let Some(x) = &self.skip_groups {
            pairs.push(("skip_groups", FilterValue::NumList(x)));
        }
        if let Some(x) = self.all_available {
            pairs.push(("all_available", FilterValue::Flag(x)));
        }
        if let Some(x) = &self.search {
            pairs.push(("search", FilterValue::Text(x.as_str())));
        }
        if let Some(x) = self.order_by {
            pairs.push(("order_by", FilterValue::Token(x.token())));
        }
        if let Some(x) = self.sort {
            pairs.push(("sort", FilterValue::Token(x.token())));
        }
        proof {
            assert(spec_pairs_of(pairs@) =~= self.spec_pairs());
        }
        encode_query("groups", &pairs)
    }
}

/// Field a group listing can be ordered by, for the option-bag form of the
/// listing.
#[derive(Debug, Clone, Copy, PartialEq, Eq, Structural)]
pub enum GroupListerOptionsOrderBy {
    Name,
    Path,
}

impl GroupListerOptionsOrderBy {
    /// Wire token sent for this ordering field.
    pub open spec fn spec_token(self) -> Seq<char> {
        match self {
            GroupListerOptionsOrderBy::Name => "name"@,
            GroupListerOptionsOrderBy::Path => "path"@,
        }
    }
}

/// Sort direction, for the option-bag form of the listing.
#[derive(Debug, Clone, Copy, PartialEq, Eq, Structural)]
pub enum GroupListerOptionsSort {
    Asc,
    Desc,
}

impl GroupListerOptionsSort {
    /// Wire token sent for this sort direction.
    pub open spec fn spec_token(self) -> Seq<char> {
        match self {
            GroupListerOptionsSort::Asc => "asc"@,
            GroupListerOptionsSort::Desc => "desc"@,
        }
    }
}

/// Appends the ordering field's wire token to the string.
pub fn append_group_lister_options_order_by(order_by: GroupListerOptionsOrderBy, s: &mut String)
    ensures
        final(s)@ == old(s)@ + order_by.spec_token(),
{
    s.append(
        match order_by {
            GroupListerOptionsOrderBy::Name => "name",
            GroupListerOptionsOrderBy::Path => "path",
        },
    );
}

/// Appends the sort direction's wire token to the string.
pub fn append_group_lister_options_sort(sort: GroupListerOptionsSort, s: &mut String)
    ensures
        final(s)@ == old(s)@ + sort.spec_token(),
{
    s.append(
        match sort {
            GroupListerOptionsSort::Asc => "asc",
            GroupListerOptionsSort::Desc => "desc",
        },
    );
}

/// The optional filters of a group listing, as one open bag of options.
#[derive(Debug, Clone)]
pub struct GroupListerOptions {
    /// Group ids to leave out.
    pub skip_groups: Option<Vec<i64>>,
    /// Ask for every group the caller can reach.
    pub all_available: Option<bool>,
    /// Text the wanted groups' names or paths contain.
    pub search: Option<String>,
    /// Field to order by.
    pub order_by: Option<GroupListerOptionsOrderBy>,
    /// Sort direction.
    pub sort: Option<GroupListerOptionsSort>,
}

impl Default for GroupListerOptions {
    fn default() -> (r: GroupListerOptions)
        ensures
            r.skip_groups is None,
            r.all_available is None,
            r.search is None,
            r.order_by is None,
            r.sort is None,
    {
        GroupListerOptions {
            skip_groups: None,
            all_available: None,
            search: None,
            order_by: None,
            sort: None,
        }
    }
}

/// A group listing held as a plain value: the option bag and nothing else.
#[derive(Debug, Clone)]
pub struct GroupListing {
    pub options: GroupListerOptions,
}

impl Default for GroupListing {
    fn default() -> (r: GroupListing)
        ensures
            r.options.skip_groups is None,
            r.options.all_available is None,
            r.options.search is None,
            r.options.order_by is None,
            r.options.sort is None,
    {
        GroupListing { options: GroupListerOptions::default() }
    }
}

impl GroupListing {
    /// The name/value pairs this listing contributes, in declaration order.
    pub open spec fn spec_pairs(self) -> Seq<(Seq<char>, FilterSpec)> {
        let o = self.options;
        let s = Seq::<(Seq<char>, FilterSpec)>::empty();
        let s = if o.skip_groups is Some {
            s.push(("skip_groups"@, FilterSpec::NumList(o.skip_groups->Some_0@)))
        } else {
            s
        };
        let s = if o.all_available is Some {
            s.push(("all_available"@, FilterSpec::Flag(o.all_available->Some_0)))
        } else {
            s
        };
        let s = if o.search is Some {
            s.push(("search"@, FilterSpec::Text(o.search->Some_0@)))
        } else {
            s
        };
        let s = if o.order_by is Some {
            s.push(("order_by"@, FilterSpec::Token(o.order_by->Some_0.spec_token())))
        } else {
            s
        };
        let s = if o.sort is Some {
            s.push(("sort"@, FilterSpec::Token(o.sort->Some_0.spec_token())))
        } else {
            s
        };
        s
    }

    /// The exact query this listing encodes to.
    pub open spec fn spec_query(self) -> Seq<char> {
        spec_encode("groups"@, self.spec_pairs())
    }

    pub fn new() -> (r: GroupListing)
        ensures
            r.options.skip_groups is None,
            r.options.all_available is None,
            r.options.search is None,
            r.options.order_by is None,
            r.options.sort is None,
    {
        GroupListing::default()
    }

    /// A listing held as a plain value reaches no transport, so committing
    /// it yields no groups.
    pub fn list(&self) -> (r: crate::Groups)
        ensures
            r@ == Seq::<crate::Group>::empty(),
    {
        Vec::new()
    }

    /// Encodes this listing as its wire-level query string. The result is a
    /// function of the listing's value alone.
    pub fn build_query(&self) -> (r: String)
        ensures
            r@ == self.spec_query(),
    {
        let mut pairs: Vec<(&str, FilterValue)> = Vec::new();
        if let Some(x) = &self.options.skip_groups {
            pairs.push(("skip_groups", FilterValue::NumList(x)));
        }
        if let Some(x) = self.options.all_available {
            pairs.push(("all_available", FilterValue::Flag(x)));
        }
        if let Some(x) = &self.options.search {
            pairs.push(("search", FilterValue::Text(x.as_str())));
        }
        if let Some(x) = self.options.order_by {
            let token = match x {
                GroupListerOptionsOrderBy::Name => "name",
                GroupListerOptionsOrderBy::Path => "path",
            };
            pairs.push(("order_by", FilterValue::Token(token)));
        }
        if let Some(x) = self.options.sort {
            let token = match x {
                GroupListerOptionsSort::Asc => "asc",
                GroupListerOptionsSort::Desc => "desc",
            };
            pairs.push(("sort", FilterValue::Token(token)));
        }
        proof {
            assert(spec_pairs_of(pairs@) =~= self.spec_pairs());
        }
        encode_query("groups", &pairs)
    }
}


/// A group listing with every filter absent encodes to exactly the bare
/// path, with no trailing `?`.
pub proof fn lemma_default_groups_query(l: GroupsLister)
    requires
        l.is_default(),
    ensures
        l.spec_query() == "groups"@,
{
    assert(l.spec_pairs() =~= Seq::<(Seq<char>, FilterSpec)>::empty());
    crate::query::lemma_encode_no_pairs("groups"@);
}

/// An option-bag group listing with every filter absent encodes to exactly
/// the bare path, with no trailing `?`.
pub proof fn lemma_default_group_listing_query(l: GroupListing)
    requires
        l.options.skip_groups is None,
        l.options.all_available is None,
        l.options.search is None,
        l.options.order_by is None,
        l.options.sort is None,
    ensures
        l.spec_query() == "groups"@,
{
    assert(l.spec_pairs() =~= Seq::<(Seq<char>, FilterSpec)>::empty());
    crate::query::lemma_encode_no_pairs("groups"@);
}

/// Setting two different filters commutes: the listing that results, and so
/// its encoded query, does not depend on the order the two setters were
/// called in; the query keeps the declaration order of the filters.
pub proof fn lemma_search_order_by_commute(
    l: GroupsLister,
    search: String,
    order_by: ListingOrderBy,
)
    ensures
        (GroupsLister { order_by: Some(order_by), ..(GroupsLister { search: Some(search), ..l }) })
            == (GroupsLister {
            search: Some(search),
            ..(GroupsLister { order_by: Some(order_by), ..l })
        }),
{
}

} // verus!
