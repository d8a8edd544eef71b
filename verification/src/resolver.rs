//! Page-by-page resolution of a single item.
//!
//! The remote API offers no exact lookup for compound keys (a project by
//! namespace and name, an issue or merge request by its user-facing `iid`),
//! so the one matching item is found by scanning successive pages of a
//! listing endpoint with a predicate.

use vstd::prelude::*;

use crate::Lister;
use crate::TransportError;

verus! {

/// Page size the resolver asks for on every scan step. One tunable constant,
/// not a number repeated across call sites.
pub const RESOLVE_PAGE_SIZE: u16 = 20;

/// What scanning one returned page decided.
pub enum PageOutcome<T> {
    /// The first item on the page that the predicate accepted.
    Found(T),
    /// No item matched and the page was short (fewer items than asked for):
    /// under the page contract the remote side has nothing further, so the
    /// search ends with no match.
    Exhausted,
    /// No item matched and the page was full: a further page must be asked
    /// for.
    NextPage,
}

/// Decides from one page of items whether the search is over.
///
/// The returned outcome is exact: a found item is the first on the page the
/// predicate accepted, every item before it was rejected; the search is
/// declared over exactly when nothing matched and the page came back short
/// of `per_page`.
pub fn scan_page<T, G: Fn(&T) -> bool>(items: Vec<T>, pred: &G, per_page: u16) -> (r: PageOutcome<
    T,
>)
    requires
        forall|t: T| #[trigger] call_requires(*pred, (&t,)),
    ensures
        match r {
            PageOutcome::Found(t) => exists|i: int|
                0 <= i < items@.len() && t == items@[i] && call_ensures(*pred, (&items@[i],), true)
                    && (forall|j: int|
                    0 <= j < i ==> call_ensures(*pred, (&items@[j],), false)),
            PageOutcome::Exhausted => items@.len() < per_page && (forall|j: int|
                0 <= j < items@.len() ==> call_ensures(*pred, (&items@[j],), false)),
            PageOutcome::NextPage => items@.len() >= per_page && (forall|j: int|
                0 <= j < items@.len() ==> call_ensures(*pred, (&items@[j],), false)),
        },
{
    match find_first(&items, pred) {
        Some(i) => {
            let mut owned = items;
            let found = owned.remove(i);
            PageOutcome::Found(found)
        },
        None => {
            if items.len() < per_page as usize {
                PageOutcome::Exhausted
            } else {
                PageOutcome::NextPage
            }
        },
    }
}

/// The position of the first item the predicate accepts, scanning in order;
/// `None` when it rejects every item.
pub fn find_first<T, G: Fn(&T) -> bool>(items: &Vec<T>, pred: &G) -> (r: Option<usize>)
    requires
        forall|t: T| #[trigger] call_requires(*pred, (&t,)),
    ensures
        match r {
            Some(i) => 0 <= i < items@.len() && call_ensures(*pred, (&items@[i as int],), true)
                && (forall|j: int| 0 <= j < i ==> call_ensures(*pred, (&items@[j],), false)),
            None => forall|j: int|
                0 <= j < items@.len() ==> call_ensures(*pred, (&items@[j],), false),
        },
{
    let n = items.len();
    let mut i: usize = 0;
    while i < n
        invariant
            n == items@.len(),
            i <= n,
            forall|t: T| #[trigger] call_requires(*pred, (&t,)),
            forall|j: int| 0 <= j < i ==> call_ensures(*pred, (&items@[j],), false),
        decreases n - i,
    {
        let item = vstd::slice::slice_index_get(items.as_slice(), i);
        if pred(item) {
            return Some(i);
        }
        i = i + 1;
    }
    None
}

/// Finds the single item a predicate accepts by scanning successive pages of
/// the listers the factory produces.
///
/// One `list_paginated` round trip per page, pages numbered from 1. The scan
/// returns the first accepted item as soon as one is seen on a page, without
/// touching later items or pages; it ends with `Ok(None)` once a page with
/// no match comes back shorter than `per_page` (the remote side is then out
/// of pages); and it hands back the first transport failure unchanged,
/// asking for nothing further. `Ok(None)` — not found — is a successful
/// outcome, kept distinct from a transport failure.
///
/// Termination rests on the lister honoring the page contract; a remote
/// side that kept answering full pages without a match would be asked page
/// after page, so the scan also gives up with `Ok(None)` once the page
/// counter space is exhausted.
pub fn resolve<T, L: Lister<Vec<T>>, F: Fn() -> L, G: Fn(&T) -> bool>(
    factory: &F,
    pred: &G,
    per_page: u16,
) -> (r: Result<Option<T>, TransportError>)
    requires
        per_page >= 1,
        call_requires(*factory, ()),
        forall|t: T| #[trigger] call_requires(*pred, (&t,)),
    ensures
        r matches Ok(Some(t)) ==> call_ensures(*pred, (&t,), true),
{
    let mut page: u16 = 1;
    loop
        invariant
            1 <= page,
            call_requires(*factory, ()),
            forall|t: T| #[trigger] call_requires(*pred, (&t,)),
        decreases u16::MAX - page,
    {
        let lister = factory();
        match lister.list_paginated(page, per_page) {
            Err(e) => {
                return Err(e);
            },
            Ok(items) => {
                match scan_page(items, pred, per_page) {
                    PageOutcome::Found(t) => {
                        return Ok(Some(t));
                    },
                    PageOutcome::Exhausted => {
                        return Ok(None);
                    },
                    PageOutcome::NextPage => {
                        if page == u16::MAX {
                            return Ok(None);
                        }
                        page = page + 1;
                    },
                }
            },
        }
    }
}

} // verus!
