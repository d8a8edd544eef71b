//! Project listings: the caller's projects, all projects, owned projects,
//! a name search, and one project by id or namespaced path.

use vstd::prelude::*;

use crate::query::spec_encode;
use crate::query::spec_pairs_of;
use crate::query::encode_query;
use crate::query::FilterSpec;
use crate::query::FilterValue;
use crate::ListingSort;
use crate::ListingVisibility;
use crate::str_eq;

pub mod all;
pub mod id;
pub mod owned;
pub mod search;

verus! {

/// Field a project listing can be ordered by.
#[derive(Debug, Clone, Copy, PartialEq, Eq, Structural)]
pub enum ListingOrderBy {
    Id,
    Name,
    Path,
    CreatedAt,
    UpdatedAt,
    LastActivityAt,
}

impl ListingOrderBy {
    /// Wire token sent for this ordering field.
    pub open spec fn spec_token(self) -> Seq<char> {
        match self {
            ListingOrderBy::Id => "id"@,
            ListingOrderBy::Name => "name"@,
            ListingOrderBy::Path => "path"@,
            ListingOrderBy::CreatedAt => "created_at"@,
            ListingOrderBy::UpdatedAt => "updated_at"@,
            ListingOrderBy::LastActivityAt => "last_activity_at"@,
        }
    }

    pub fn token(self) -> (r: &'static str)
        ensures
            r@ == self.spec_token(),
    {
        match self {
            ListingOrderBy::Id => "id",
            ListingOrderBy::Name => "name",
            ListingOrderBy::Path => "path",
            ListingOrderBy::CreatedAt => "created_at",
            ListingOrderBy::UpdatedAt => "updated_at",
            ListingOrderBy::LastActivityAt => "last_activity_at",
        }
    }
}

/// Field a project name search can be ordered by.
#[derive(Debug, Clone, Copy, PartialEq, Eq, Structural)]
pub enum SearchListingOrderBy {
    Id,
    Name,
    CreatedAt,
    LastActivityAt,
}

impl SearchListingOrderBy {
    /// Wire token sent for this ordering field.
    pub open spec fn spec_token(self) -> Seq<char> {
        match self {
            SearchListingOrderBy::Id => "id"@,
            SearchListingOrderBy::Name => "name"@,
            SearchListingOrderBy::CreatedAt => "created_at"@,
            SearchListingOrderBy::LastActivityAt => "last_activity_at"@,
        }
    }

    pub fn token(self) -> (r: &'static str)
        ensures
            r@ == self.spec_token(),
    {
        match self {
            SearchListingOrderBy::Id => "id",
            SearchListingOrderBy::Name => "name",
            SearchListingOrderBy::CreatedAt => "created_at",
            SearchListingOrderBy::LastActivityAt => "last_activity_at",
        }
    }
}

/// A project designator: either the numeric id or a namespaced
/// `namespace/project` path.
#[derive(Debug, Clone)]
pub enum ListingId {
    Id(i64),
    NamespaceProject(String),
}

/// A project's owner as the remote side describes it.
#[derive(Debug, Clone)]
pub struct ProjectOwner {
    pub name: String,
    pub username: String,
    pub id: i64,
    pub state: String,
    pub avatar_url: String,
    pub web_url: String,
}

/// A namespace's avatar.
#[derive(Debug, Clone)]
pub struct ProjectNamespaceAvatar {
    pub url: Option<String>,
}

/// The namespace a project lives in.
#[derive(Debug, Clone)]
pub struct ProjectNamespace {
    pub id: i64,
    pub name: String,
    pub path: String,
    pub owner_id: Option<i64>,
    pub created_at: Option<String>,
    pub updated_at: Option<String>,
    pub description: Option<String>,
    pub avatar: Option<ProjectNamespaceAvatar>,
    pub membership_lock: Option<bool>,
    pub share_with_group_lock: Option<bool>,
    pub visibility_level: Option<i64>,
    pub request_access_enabled: Option<bool>,
    pub ldap_sync_status: Option<String>,
    pub ldap_sync_error: Option<String>,
    pub ldap_sync_last_update_at: Option<String>,
    pub ldap_sync_last_successful_update_at: Option<String>,
    pub ldap_sync_last_sync_at: Option<String>,
    pub deleted_at: Option<String>,
    pub lfs_enabled: Option<String>,
    pub repository_size_limit: Option<String>,
}

impl Default for ProjectNamespace {
    fn default() -> (r: ProjectNamespace)
        ensures
            r.id == 0,
            r.name@ == Seq::<char>::empty(),
            r.path@ == Seq::<char>::empty(),
            r.owner_id is None,
    {
        ProjectNamespace {
            id: 0,
            name: String::new(),
            path: String::new(),
            owner_id: None,
            created_at: None,
            updated_at: None,
            description: None,
            avatar: None,
            membership_lock: None,
            share_with_group_lock: None,
            visibility_level: None,
            request_access_enabled: None,
            ldap_sync_status: None,
            ldap_sync_error: None,
            ldap_sync_last_update_at: None,
            ldap_sync_last_successful_update_at: None,
            ldap_sync_last_sync_at: None,
            deleted_at: None,
            lfs_enabled: None,
            repository_size_limit: None,
        }
    }
}

/// The project this one was forked from.
#[derive(Debug, Clone)]
pub struct ProjectForkedFrom {
    pub id: i64,
    pub http_url_to_repo: String,
    pub web_url: String,
    pub name: String,
    pub name_with_namespace: String,
    pub path: String,
    pub path_with_namespace: String,
}

/// An access level pair.
#[derive(Debug, Clone)]
pub struct ProjectAccess {
    pub access_level: i64,
    pub notification_level: i64,
}

/// The caller's access to a project.
#[derive(Debug, Clone)]
pub struct ProjectPermissions {
    pub project_access: Option<ProjectAccess>,
    pub group_access: Option<ProjectAccess>,
}

/// A group a project is shared with.
#[derive(Debug, Clone)]
pub struct ProjectSharedWithGroup {
    pub group_id: i64,
    pub group_name: String,
    pub group_access_level: i64,
}

/// One project as the remote side describes it.
#[derive(Debug, Clone)]
pub struct Project {
    pub id: i64,
    pub description: String,
    pub default_branch: Option<String>,
    pub tag_list: Vec<String>,
    pub public: bool,
    pub archived: bool,
    pub visibility_level: i64,
    pub ssh_url_to_repo: String,
    pub http_url_to_repo: String,
    pub web_url: String,
    pub name: String,
    pub name_with_namespace: String,
    pub path: String,
    pub path_with_namespace: String,
    pub container_registry_enabled: Option<bool>,
    pub issues_enabled: Option<bool>,
    pub merge_requests_enabled: Option<bool>,
    pub wiki_enabled: Option<bool>,
    pub builds_enabled: Option<bool>,
    pub snippets_enabled: Option<bool>,
    pub created_at: String,
    pub last_activity_at: String,
    pub shared_runners_enabled: bool,
    pub lfs_enabled: bool,
    pub creator_id: i64,
    pub namespace: ProjectNamespace,
    pub forked_from_project: Option<ProjectForkedFrom>,
    pub avatar_url: Option<String>,
    pub star_count: i64,
    pub forks_count: i64,
    pub open_issues_count: Option<i64>,
    pub runners_token: Option<String>,
    pub public_builds: bool,
    pub shared_with_groups: Vec<ProjectSharedWithGroup>,
    pub only_allow_merge_if_build_succeeds: bool,
    pub request_access_enabled: bool,
    pub only_allow_merge_if_all_discussions_are_resolved: Option<bool>,
    pub approvals_before_merge: Option<i64>,
    pub permissions: Option<ProjectPermissions>,
}

pub type Projects = Vec<Project>;

impl Default for Project {
    fn default() -> (r: Project)
        ensures
            r.id == 0,
            r.name@ == Seq::<char>::empty(),
            r.path@ == Seq::<char>::empty(),
            r.namespace.name@ == Seq::<char>::empty(),
            r.tag_list@ == Seq::<String>::empty(),
            r.public == false,
            r.archived == false,
    {
        Project {
            id: 0,
            description: String::new(),
            default_branch: None,
            tag_list: Vec::new(),
            public: false,
            archived: false,
            visibility_level: 0,
            ssh_url_to_repo: String::new(),
            http_url_to_repo: String::new(),
            web_url: String::new(),
            name: String::new(),
            name_with_namespace: String::new(),
            path: String::new(),
            path_with_namespace: String::new(),
            container_registry_enabled: None,
            issues_enabled: None,
            merge_requests_enabled: None,
            wiki_enabled: None,
            builds_enabled: None,
            snippets_enabled: None,
            created_at: String::new(),
            last_activity_at: String::new(),
            shared_runners_enabled: false,
            lfs_enabled: false,
            creator_id: 0,
            namespace: ProjectNamespace::default(),
            forked_from_project: None,
            avatar_url: None,
            star_count: 0,
            forks_count: 0,
            open_issues_count: None,
            runners_token: None,
            public_builds: false,
            shared_with_groups: Vec::new(),
            only_allow_merge_if_build_succeeds: false,
            request_access_enabled: false,
            only_allow_merge_if_all_discussions_are_resolved: None,
            approvals_before_merge: None,
            permissions: None,
        }
    }
}

impl Project {
    /// True exactly when this project sits in the given namespace under the
    /// given name: the predicate the paginated project resolution uses,
    /// since the remote search matches on name substrings only.
    pub fn matches_namespace_and_name(&self, namespace: &str, name: &str) -> (r: bool)
        ensures
            r == (self.namespace.name@ == namespace@ && self.name@ == name@),
    {
        str_eq(self.namespace.name.as_str(), namespace) && str_eq(self.name.as_str(), name)
    }

    /// A lister for this project's issues.
    pub fn issues(&self) -> (r: crate::issues::project::IssuesLister)
        ensures
            r.id == self.id,
            r.is_default(),
    {
        crate::issues::project::IssuesLister::new(self.id)
    }

    /// A lister for this project's merge requests.
    pub fn merge_requests(&self) -> (r: crate::merge_requests::MergeRequestsLister)
        ensures
            r.id == self.id,
            r.is_default(),
    {
        crate::merge_requests::MergeRequestsLister::new(self.id)
    }
}

/// A listing of the projects the caller is a member of, with its optional
/// filters in declaration order.
#[derive(Debug, Clone)]
pub struct ProjectsLister {
    pub archived: Option<bool>,
    pub visibility: Option<ListingVisibility>,
    pub order_by: Option<ListingOrderBy>,
    pub sort: Option<ListingSort>,
    pub search: Option<String>,
    pub simple: Option<bool>,
}

impl ProjectsLister {
    /// True when every filter is absent.
    pub open spec fn is_default(self) -> bool {
        self.archived is None && self.visibility is None && self.order_by is None && self.sort
            is None && self.search is None && self.simple is None
    }

    /// The name/value pairs this listing contributes, in declaration order.
    pub open spec fn spec_pairs(self) -> Seq<(Seq<char>, FilterSpec)> {
        let s = Seq::<(Seq<char>, FilterSpec)>::empty();
        let s = if self.archived is Some {
            s.push(("archived"@, FilterSpec::Flag(self.archived->Some_0)))
        } else {
            s
        };
        let s = if self.visibility is Some {
            s.push(("visibility"@, FilterSpec::Token(self.visibility->Some_0.spec_token())))
        } else {
            s
        };
        let s = if self.order_by is Some {
            s.push(("order_by"@, FilterSpec::Token(self.order_by->Some_0.spec_token())))
        } else {
            s
        };
        let s = if self.sort is Some {
            s.push(("sort"@, FilterSpec::Token(self.sort->Some_0.spec_token())))
        } else {
            s
        };
        let s = if self.search is Some {
            s.push(("search"@, FilterSpec::Text(self.search->Some_0@)))
        } else {
            s
        };
        let s = if self.simple is Some {
            s.push(("simple"@, FilterSpec::Flag(self.simple->Some_0)))
        } else {
            s
        };
        s
    }

    /// The exact query this listing encodes to.
    pub open spec fn spec_query(self) -> Seq<char> {
        spec_encode("projects"@, self.spec_pairs())
    }

    pub fn new() -> (r: ProjectsLister)
        ensures
            r.is_default(),
    {
        ProjectsLister {
            archived: None,
            visibility: None,
            order_by: None,
            sort: None,
            search: None,
            simple: None,
        }
    }

    /// Moves on to listing every project on the instance.
    pub fn all(self) -> (r: all::ProjectsLister)
        ensures
            r.is_default(),
    {
        all::ProjectsLister::new()
    }

    /// Moves on to listing the projects the caller owns.
    pub fn owned(self) -> (r: owned::ProjectsLister)
        ensures
            r.is_default(),
    {
        owned::ProjectsLister::new()
    }

    /// Moves on to a project name search.
    pub fn search(self, query: String) -> (r: search::ProjectsLister)
        ensures
            r.query == query,
            r.order_by is None,
            r.sort is None,
    {
        search::ProjectsLister::new(query)
    }

    /// Moves on to asking for one project.
    pub fn id(self, id: ListingId) -> (r: id::ProjectsLister)
        ensures
            r.id == id,
    {
        id::ProjectsLister::new(id)
    }

    pub fn archived(self, archived: bool) -> (r: ProjectsLister)
        ensures
            r.archived == Some(archived),
            r.visibility == self.visibility,
            r.order_by == self.order_by,
            r.sort == self.sort,
            r.search == self.search,
            r.simple == self.simple,
    {
        ProjectsLister { archived: Some(archived), ..self }
    }

    pub fn visibility(self, visibility: ListingVisibility) -> (r: ProjectsLister)
        ensures
            r.visibility == Some(visibility),
            r.archived == self.archived,
            r.order_by == self.order_by,
            r.sort == self.sort,
            r.search == self.search,
            r.simple == self.simple,
    {
        ProjectsLister { visibility: Some(visibility), ..self }
    }

    pub fn order_by(self, order_by: ListingOrderBy) -> (r: ProjectsLister)
        ensures
            r.order_by == Some(order_by),
            r.archived == self.archived,
            r.visibility == self.visibility,
            r.sort == self.sort,
            r.search == self.search,
            r.simple == self.simple,
    {
        ProjectsLister { order_by: Some(order_by), ..self }
    }

    pub fn sort(self, sort: ListingSort) -> (r: ProjectsLister)
        ensures
            r.sort == Some(sort),
            r.archived == self.archived,
            r.visibility == self.visibility,
            r.order_by == self.order_by,
            r.search == self.search,
            r.simple == self.simple,
    {
        ProjectsLister { sort: Some(sort), ..self }
    }

    pub fn search_pattern(self, search: String) -> (r: ProjectsLister)
        ensures
            r.search == Some(search),
            r.archived == self.archived,
            r.visibility == self.visibility,
            r.order_by == self.order_by,
            r.sort == self.sort,
            r.simple == self.simple,
    {
        ProjectsLister { search: Some(search), ..self }
    }

    pub fn simple(self, simple: bool) -> (r: ProjectsLister)
        ensures
            r.simple == Some(simple),
            r.archived == self.archived,
            r.visibility == self.visibility,
            r.order_by == self.order_by,
            r.sort == self.sort,
            r.search == self.search,
    {
        ProjectsLister { simple: Some(simple), ..self }
    }

    /// Encodes this listing as its wire-level query string. The result is a
    /// function of the listing's value alone, so encoding is deterministic
    /// and independent of the order the setters were called in.
    pub fn build_query(&self) -> (r: String)
        ensures
            r@ == self.spec_query(),
    {
        let mut pairs: Vec<(&str, FilterValue)> = Vec::new();
        if let Some(x) = self.archived {
            pairs.push(("archived", FilterValue::Flag(x)));
        }
        if let Some(x) = self.visibility {
            pairs.push(("visibility", FilterValue::Token(x.token())));
        }
        if let Some(x) = self.order_by {
            pairs.push(("order_by", FilterValue::Token(x.token())));
        }
        if let Some(x) = self.sort {
            pairs.push(("sort", FilterValue::Token(x.token())));
        }
        if let Some(x) = &self.search {
            pairs.push(("search", FilterValue::Text(x.as_str())));
        }
        if let Some(x) = self.simple {
            pairs.push(("simple", FilterValue::Flag(x)));
        }
        proof {
            assert(spec_pairs_of(pairs@) =~= self.spec_pairs());
        }
        encode_query("projects", &pairs)
    }
}


/// A project listing with every filter absent encodes to exactly the bare
/// path, with no trailing `?`.
pub proof fn lemma_default_projects_query(l: ProjectsLister)
    requires
        l.is_default(),
    ensures
        l.spec_query() == "projects"@,
{
    assert(l.spec_pairs() =~= Seq::<(Seq<char>, FilterSpec)>::empty());
    crate::query::lemma_encode_no_pairs("projects"@);
}

} // verus!
