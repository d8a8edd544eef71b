use gitlab_api::groups::GroupListerOptions;
use gitlab_api::groups::GroupListerOptionsOrderBy;
use gitlab_api::groups::GroupListerOptionsSort;
use gitlab_api::groups::GroupListing;
use gitlab_api::groups::GroupsLister;
use gitlab_api::groups::ListingId;
use gitlab_api::groups::ListingOrderBy;
use gitlab_api::groups::append_group_lister_options_order_by;
use gitlab_api::groups::append_group_lister_options_sort;
use gitlab_api::groups::details;
use gitlab_api::groups::owned;
use gitlab_api::groups::owned_groups;
use gitlab_api::ListingSort;

#[test]
fn test_append_group_lister_options_order_by() {
    let expected_string = "Initialnamepathpathname";

    let mut s = String::from("Initial");

    append_group_lister_options_order_by(GroupListerOptionsOrderBy::Name, &mut s);
    append_group_lister_options_order_by(GroupListerOptionsOrderBy::Path, &mut s);
    append_group_lister_options_order_by(GroupListerOptionsOrderBy::Path, &mut s);
    append_group_lister_options_order_by(GroupListerOptionsOrderBy::Name, &mut s);

    assert_eq!(s, expected_string);
}

#[test]
fn test_append_group_lister_options_sort() {
    let expected_string = "Initialascdescascdesc";

    let mut s = String::from("Initial");

    append_group_lister_options_sort(GroupListerOptionsSort::Asc, &mut s);
    append_group_lister_options_sort(GroupListerOptionsSort::Desc, &mut s);
    append_group_lister_options_sort(GroupListerOptionsSort::Asc, &mut s);
    append_group_lister_options_sort(GroupListerOptionsSort::Desc, &mut s);

    assert_eq!(s, expected_string);
}

#[test]
fn groups_groups_build_query_default() {
    let expected_string = "groups";
    let listing: GroupListing = Default::default();
    let query = listing.build_query();
    assert_eq!(query, expected_string);

    let expected_string = "groups";
    let listing = GroupListing { options: Default::default() };
    let query = listing.build_query();
    assert_eq!(query, expected_string);
}

#[test]
fn groups_groups_build_query_skip_groups() {
    let expected_string = "groups?skip_groups[]=1&skip_groups[]=2&skip_groups[]=3";
    let listing = GroupListing {
        options: GroupListerOptions { skip_groups: Some(vec![1, 2, 3]), ..Default::default() },
    };
    let query = listing.build_query();
    assert_eq!(query, expected_string);
}

#[test]
fn groups_groups_build_query_all_available() {
    let expected_string = "groups?all_available=true";
    let listing = GroupListing {
        options: GroupListerOptions { all_available: Some(true), ..Default::default() },
    };
    let query = listing.build_query();
    assert_eq!(query, expected_string);

    let expected_string = "groups?all_available=false";
    let listing = GroupListing {
        options: GroupListerOptions { all_available: Some(false), ..Default::default() },
    };
    let query = listing.build_query();
    assert_eq!(query, expected_string);
}

#[test]
fn groups_groups_build_query_search() {
    let expected_string = "groups?search=SearchPattern";
    let listing = GroupListing {
        options: GroupListerOptions {
            search: Some(String::from("SearchPattern")),
            ..Default::default()
        },
    };
    let query = listing.build_query();
    assert_eq!(query, expected_string);
}

#[test]
fn groups_groups_build_query_order_by_name() {
    let expected_string = "groups?order_by=name";
    let listing = GroupListing {
        options: GroupListerOptions {
            order_by: Some(GroupListerOptionsOrderBy::Name),
            ..Default::default()
        },
    };
    let query = listing.build_query();
    assert_eq!(query, expected_string);
}

#[test]
fn groups_groups_build_query_order_by_path() {
    let expected_string = "groups?order_by=path";
    let listing = GroupListing {
        options: GroupListerOptions {
            order_by: Some(GroupListerOptionsOrderBy::Path),
            ..Default::default()
        },
    };
    let query = listing.build_query();
    assert_eq!(query, expected_string);
}

#[test]
fn groups_groups_build_query_sort() {
    let expected_string = "groups?sort=asc";
    let listing = GroupListing {
        options: GroupListerOptions {
            sort: Some(GroupListerOptionsSort::Asc),
            ..Default::default()
        },
    };
    let query = listing.build_query();
    assert_eq!(query, expected_string);

    let expected_string = "groups?sort=desc";
    let listing = GroupListing {
        options: GroupListerOptions {
            sort: Some(GroupListerOptionsSort::Desc),
            ..Default::default()
        },
    };
    let query = listing.build_query();
    assert_eq!(query, expected_string);
}

#[test]
fn groups_groups_build_query_search_order_by_path() {
    let expected_string = "groups?search=SearchPattern&order_by=path";
    let listing = GroupListing {
        options: GroupListerOptions {
            order_by: Some(GroupListerOptionsOrderBy::Path),
            search: Some(String::from("SearchPattern")),
            ..Default::default()
        },
    };
    let query = listing.build_query();
    assert_eq!(query, expected_string);
}

#[test]
fn owned_groups_build_query_default() {
    let expected_string = "groups/owned";
    let listing: owned_groups::Listing = Default::default();
    let query = listing.build_query();
    assert_eq!(query, expected_string);

    let expected_string = "groups/owned";
    let listing = owned_groups::Listing::new();
    let query = listing.build_query();
    assert_eq!(query, expected_string);
}

#[test]
fn mod_groups_build_query_default() {
    let expected_string = "groups";
    let lister = GroupsLister::new();
    let query = lister.build_query();
    assert_eq!(query, expected_string);

    let expected_string = "groups";
    let query = GroupsLister::new().build_query();
    assert_eq!(query, expected_string);
}

#[test]
fn mod_groups_build_query_skip_groups() {
    let expected_string = "groups?skip_groups[]=1&skip_groups[]=2&skip_groups[]=3";
    let query = GroupsLister::new().skip_groups(vec![1, 2, 3]).build_query();
    assert_eq!(query, expected_string);
}

#[test]
fn mod_groups_build_query_all_available() {
    let expected_string = "groups?all_available=true";
    let query = GroupsLister::new().all_available(true).build_query();
    assert_eq!(query, expected_string);

    let expected_string = "groups?all_available=false";
    let query = GroupsLister::new().all_available(false).build_query();
    assert_eq!(query, expected_string);
}

#[test]
fn mod_groups_build_query_search() {
    let expected_string = "groups?search=SearchPattern";
    let query = GroupsLister::new().search(String::from("SearchPattern")).build_query();
    assert_eq!(query, expected_string);
}

#[test]
fn mod_groups_build_query_order_by_name() {
    let expected_string = "groups?order_by=name";
    let query = GroupsLister::new().order_by(ListingOrderBy::Name).build_query();
    assert_eq!(query, expected_string);
}

#[test]
fn mod_groups_build_query_order_by_path() {
    let expected_string = "groups?order_by=path";
    let query = GroupsLister::new().order_by(ListingOrderBy::Path).build_query();
    assert_eq!(query, expected_string);
}

#[test]
fn mod_groups_build_query_sort() {
    let expected_string = "groups?sort=asc";
    let query = GroupsLister::new().sort(ListingSort::Asc).build_query();
    assert_eq!(query, expected_string);

    let expected_string = "groups?sort=desc";
    let query = GroupsLister::new().sort(ListingSort::Desc).build_query();
    assert_eq!(query, expected_string);
}

#[test]
fn mod_groups_build_query_search_order_by_path() {
    let expected_string = "groups?search=SearchPattern&order_by=path";
    let query = GroupsLister::new()
        .order_by(ListingOrderBy::Path)
        .search(String::from("SearchPattern"))
        .build_query();
    assert_eq!(query, expected_string);
    let query = GroupsLister::new()
        .search(String::from("SearchPattern"))
        .order_by(ListingOrderBy::Path)
        .build_query();
    assert_eq!(query, expected_string);
}

#[test]
fn build_query_default_i64() {
    let expected_string = format!("groups/{}", 123);

    let lister = GroupsLister::new();
    let lister = lister.details(ListingId::Id(123));
    let query = lister.build_query();
    assert_eq!(query, expected_string);

    let lister = GroupsLister::new().details(ListingId::Id(123));
    let query = lister.build_query();
    assert_eq!(query, expected_string);

    let query = GroupsLister::new().details(ListingId::Id(123)).build_query();
    assert_eq!(query, expected_string);
}

#[test]
fn build_query_default_str() {
    let expected_string = format!("groups/{}", "group/project".replace("/", "%2F"));

    let lister = GroupsLister::new();
    let lister = lister.details(ListingId::NamespaceProject("group/project".to_string()));
    let query = lister.build_query();
    assert_eq!(query, expected_string);

    let lister = GroupsLister::new()
        .details(ListingId::NamespaceProject("group/project".to_string()));
    let query = lister.build_query();
    assert_eq!(query, expected_string);

    let query = GroupsLister::new()
        .details(ListingId::NamespaceProject("group/project".to_string()))
        .build_query();
    assert_eq!(query, expected_string);
}

#[test]
fn owned_build_query_default_split0() {
    let expected_string = "groups/owned";

    let lister = GroupsLister::new();
    let lister = lister.owned();
    let query = lister.build_query();
    assert_eq!(query, expected_string);
}

#[test]
fn owned_build_query_default_split1() {
    let expected_string = "groups/owned";

    let lister = GroupsLister::new().owned();
    let query = lister.build_query();
    assert_eq!(query, expected_string);
}

#[test]
fn owned_build_query_default() {
    let expected_string = "groups/owned";

    let query = GroupsLister::new().owned().build_query();
    assert_eq!(query, expected_string);

    let query = owned::GroupsLister::new().build_query();
    assert_eq!(query, expected_string);
}

#[test]
fn details_group_lister_new() {
    let lister = details::GroupLister::new(ListingId::Id(42));
    assert_eq!(lister.build_query(), "groups/42");
}
