//! Client-side core of a remote resource-listing HTTP API (groups, projects,
//! issues, merge requests): deterministic query-string encoding for listing
//! requests, the `Lister` capability, and a paginated single-item resolver.
//!
//! The HTTP transport and the JSON decoding are outside collaborators; this
//! crate builds the queries they send and decides how their pages are scanned.
//!
//! Every filter domain is a closed enum with an exhaustive wire-token table,
//! so a filter value outside its declared set cannot be constructed: encoding
//! is total over well-formed listings and never fails at run time. The only
//! run-time failure the crate passes along is a [`TransportError`] from the
//! layer that performs the round trip; a resolution that finds nothing is a
//! successful `Ok(None)`, kept distinct from failure.

use vstd::prelude::*;

pub mod groups;
pub mod issues;
pub mod merge_requests;
pub mod projects;
pub mod query;
pub mod resolver;

verus! {

/// A transport or decoding failure reported by the layer that performs the
/// HTTP round trip. The core never retries or suppresses one: it is handed
/// to the caller unchanged.
#[derive(Debug, Clone)]
pub struct TransportError {
    pub message: String,
}

impl TransportError {
    pub fn new(message: String) -> (r: TransportError)
        ensures
            r.message@ == message@,
    {
        TransportError { message }
    }

    /// The failure's description, for the caller to report.
    pub fn describe(&self) -> (r: &str)
        ensures
            r@ == self.message@,
    {
        self.message.as_str()
    }
}

/// The capability to execute a listing against the remote side: all at once
/// with the remote side's default page size, or exactly one page at a time.
///
/// One call is one round trip. Pages are numbered from 1, and a page holds
/// at most `per_page` items; fewer only on the final page. The resolver's
/// termination rests on the implementation honoring that page contract —
/// nothing here can check it, so an implementation that keeps returning full
/// pages keeps the scan going.
pub trait Lister<T> {
    fn list(&self) -> Result<T, TransportError>;

    fn list_paginated(&self, page: u16, per_page: u16) -> Result<T, TransportError>;
}

/// Sort direction accepted by every listing endpoint.
#[derive(Debug, Clone, Copy, PartialEq, Eq, Structural)]
pub enum ListingSort {
    Asc,
    Desc,
}

impl ListingSort {
    /// Wire token sent for this sort direction.
    pub open spec fn spec_token(self) -> Seq<char> {
        match self {
            ListingSort::Asc => "asc"@,
            ListingSort::Desc => "desc"@,
        }
    }

    pub fn token(self) -> (r: &'static str)
        ensures
            r@ == self.spec_token(),
    {
        match self {
            ListingSort::Asc => "asc",
            ListingSort::Desc => "desc",
        }
    }
}

/// Visibility level a listing can be limited to.
#[derive(Debug, Clone, Copy, PartialEq, Eq, Structural)]
pub enum ListingVisibility {
    Public,
    Internal,
    Private,
}

impl ListingVisibility {
    /// Wire token sent for this visibility level.
    pub open spec fn spec_token(self) -> Seq<char> {
        match self {
            ListingVisibility::Public => "public"@,
            ListingVisibility::Internal => "internal"@,
            ListingVisibility::Private => "private"@,
        }
    }

    pub fn token(self) -> (r: &'static str)
        ensures
            r@ == self.spec_token(),
    {
        match self {
            ListingVisibility::Public => "public",
            ListingVisibility::Internal => "internal",
            ListingVisibility::Private => "private",
        }
    }
}

/// A user account's state as the remote side reports it.
#[derive(Debug, Clone, Copy, PartialEq, Eq, Structural)]
pub enum UserState {
    Active,
    Blocked,
}

/// A milestone's state as the remote side reports it.
#[derive(Debug, Clone, Copy, PartialEq, Eq, Structural)]
pub enum MilestoneState {
    Active,
    Closed,
}

/// The remote server's version report.
#[derive(Debug, Clone)]
pub struct Version {
    pub version: String,
    pub revision: String,
}

/// One group as the remote side describes it.
#[derive(Debug, Clone)]
pub struct Group {
    pub id: i64,
    pub name: String,
    pub path: String,
    pub description: String,
    pub visibility_level: i64,
    pub lfs_enabled: bool,
    pub avatar_url: Option<String>,
    pub web_url: String,
    pub request_access_enabled: bool,
}

pub type Groups = Vec<Group>;

/// One milestone as the remote side describes it.
#[derive(Debug, Clone)]
pub struct Milestone {
    pub id: i64,
    pub iid: i64,
    pub project_id: i64,
    pub title: String,
    pub description: String,
    pub state: MilestoneState,
    pub created_at: String,
    pub updated_at: String,
    pub due_date: Option<String>,
}

/// One user as the remote side describes it.
#[derive(Debug, Clone)]
pub struct User {
    pub name: String,
    pub username: String,
    pub id: i64,
    pub state: UserState,
    pub avatar_url: Option<String>,
    pub web_url: Option<String>,
}

/// True when the domain text passes the dot rules a server name must meet:
/// it neither starts nor ends with a dot. Whether the text is a valid host
/// beyond that is the URL parser's decision, not this crate's.
pub fn domain_is_well_formed(domain: &str) -> (r: bool)
    ensures
        r == !(domain@.len() > 0 && (domain@[0] == '.' || domain@[domain@.len() - 1] == '.')),
{
    let n = domain.unicode_len();
    if n == 0 {
        return true;
    }
    let first = domain.get_char(0);
    let last = domain.get_char(n - 1);
    !(first == '.' || last == '.')
}

/// True when the private token has the length the remote side hands out:
/// exactly twenty characters.
pub fn token_has_valid_length(token: &str) -> (r: bool)
    ensures
        r == (token@.len() == 20),
{
    token.unicode_len() == 20
}

/// Compares two strings character by character.
pub fn str_eq(a: &str, b: &str) -> (r: bool)
    ensures
        r == (a@ == b@),
{
    let na = a.unicode_len();
    let nb = b.unicode_len();
    if na != nb {
        return false;
    }
    let mut i: usize = 0;
    while i < na
        invariant
            na == a@.len(),
            na == b@.len(),
            i <= na,
            forall|j: int| 0 <= j < i ==> a@[j] == b@[j],
        decreases na - i,
    {
        if a.get_char(i) != b.get_char(i) {
            return false;
        }
        i = i + 1;
    }
    proof {
        assert(a@ =~= b@);
    }
    true
}

} // verus!
