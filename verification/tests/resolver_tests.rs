use std::cell::Cell;

use gitlab_api::resolver::find_first;
use gitlab_api::resolver::resolve;
use gitlab_api::resolver::PageOutcome;
use gitlab_api::resolver::scan_page;
use gitlab_api::str_eq;
use gitlab_api::Lister;
use gitlab_api::TransportError;

/// A lister that serves fixed pages and counts how often it is asked.
struct PagesLister<'a> {
    pages: &'a Vec<Vec<i64>>,
    calls: &'a Cell<u32>,
}

impl<'a> Lister<Vec<i64>> for PagesLister<'a> {
    fn list(&self) -> Result<Vec<i64>, TransportError> {
        self.calls.set(self.calls.get() + 1);
        Ok(self.pages.iter().flatten().cloned().collect())
    }

    fn list_paginated(&self, page: u16, _per_page: u16) -> Result<Vec<i64>, TransportError> {
        self.calls.set(self.calls.get() + 1);
        Ok(self.pages[(page - 1) as usize].clone())
    }
}

/// A lister whose every round trip fails.
struct FailingLister<'a> {
    calls: &'a Cell<u32>,
}

impl<'a> Lister<Vec<i64>> for FailingLister<'a> {
    fn list(&self) -> Result<Vec<i64>, TransportError> {
        self.calls.set(self.calls.get() + 1);
        Err(TransportError::new(String::from("connection refused")))
    }

    fn list_paginated(&self, _page: u16, _per_page: u16) -> Result<Vec<i64>, TransportError> {
        self.calls.set(self.calls.get() + 1);
        Err(TransportError::new(String::from("connection refused")))
    }
}

#[test]
fn resolver_short_circuits_on_match() {
    let pages = vec![vec![1, 2, 3], vec![4]];
    let calls = Cell::new(0);
    let factory = || PagesLister { pages: &pages, calls: &calls };
    let pred = |x: &i64| *x == 3;
    let result = resolve(&factory, &pred, 3);
    assert_eq!(result.unwrap(), Some(3));
    assert_eq!(calls.get(), 1);
}

#[test]
fn resolver_exhausts_pages_without_match() {
    let pages = vec![vec![1, 2, 3], vec![4]];
    let calls = Cell::new(0);
    let factory = || PagesLister { pages: &pages, calls: &calls };
    let pred = |x: &i64| *x == 99;
    let result = resolve(&factory, &pred, 3);
    assert_eq!(result.unwrap(), None);
    assert_eq!(calls.get(), 2);
}

#[test]
fn resolver_propagates_transport_error() {
    let calls = Cell::new(0);
    let factory = || FailingLister { calls: &calls };
    let pred = |x: &i64| *x == 1;
    let result = resolve(&factory, &pred, 3);
    let err = result.unwrap_err();
    assert_eq!(err.describe(), "connection refused");
    assert_eq!(calls.get(), 1);
}

#[test]
fn resolver_finds_match_on_second_page() {
    let pages = vec![vec![1, 2, 3], vec![4, 5]];
    let calls = Cell::new(0);
    let factory = || PagesLister { pages: &pages, calls: &calls };
    let pred = |x: &i64| *x == 5;
    let result = resolve(&factory, &pred, 3);
    assert_eq!(result.unwrap(), Some(5));
    assert_eq!(calls.get(), 2);
}

#[test]
fn resolver_first_match_wins() {
    let pages = vec![vec![10, 20, 20]];
    let calls = Cell::new(0);
    let factory = || PagesLister { pages: &pages, calls: &calls };
    let pred = |x: &i64| *x == 20;
    let result = resolve(&factory, &pred, 5);
    assert_eq!(result.unwrap(), Some(20));
    assert_eq!(calls.get(), 1);
}

#[test]
fn resolver_empty_first_page_is_exhausted() {
    let pages = vec![Vec::new()];
    let calls = Cell::new(0);
    let factory = || PagesLister { pages: &pages, calls: &calls };
    let pred = |x: &i64| *x == 1;
    let result = resolve(&factory, &pred, 3);
    assert_eq!(result.unwrap(), None);
    assert_eq!(calls.get(), 1);
}

#[test]
fn scan_page_decides_each_outcome() {
    let pred = |x: &i64| *x % 2 == 0;

    match scan_page(vec![1, 3, 4, 5], &pred, 4) {
        PageOutcome::Found(v) => assert_eq!(v, 4),
        _ => panic!("expected a match"),
    }

    match scan_page(vec![1, 3, 5], &pred, 4) {
        PageOutcome::Exhausted => {}
        _ => panic!("expected exhaustion on a short page"),
    }

    match scan_page(vec![1, 3, 5, 7], &pred, 4) {
        PageOutcome::NextPage => {}
        _ => panic!("expected a full page to ask for the next one"),
    }
}

#[test]
fn find_first_returns_first_index() {
    let items = vec![5, 6, 7, 6];
    let pred = |x: &i64| *x == 6;
    assert_eq!(find_first(&items, &pred), Some(1));
    let pred_none = |x: &i64| *x == 9;
    assert_eq!(find_first(&items, &pred_none), None);
}

#[test]
fn str_eq_compares_contents() {
    assert!(str_eq("abc", "abc"));
    assert!(!str_eq("abc", "abd"));
    assert!(!str_eq("abc", "abcd"));
    assert!(str_eq("", ""));
}

#[test]
fn transport_error_describes_itself() {
    let e = TransportError::new(String::from("status code '500', not '200 OK'"));
    assert_eq!(e.describe(), "status code '500', not '200 OK'");
}
