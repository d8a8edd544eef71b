use gitlab_api::groups::GroupsLister;
use gitlab_api::projects::ListingOrderBy;
use gitlab_api::ListingSort;
use gitlab_api::ListingVisibility;

const TEST_PROJECT_ID: i64 = 123;

#[test]
fn projects_build_query_default_split0() {
    let expected_string = format!("groups/{}/projects", TEST_PROJECT_ID);

    let lister = GroupsLister::new();
    let lister = lister.projects(TEST_PROJECT_ID);
    let query = lister.build_query();
    assert_eq!(query, expected_string);
}

#[test]
fn projects_build_query_default_split1() {
    let expected_string = format!("groups/{}/projects", TEST_PROJECT_ID);

    let lister = GroupsLister::new().projects(TEST_PROJECT_ID);
    let query = lister.build_query();
    assert_eq!(query, expected_string);
}

#[test]
fn projects_build_query_default() {
    let expected_string = format!("groups/{}/projects", TEST_PROJECT_ID);

    let query = GroupsLister::new().projects(TEST_PROJECT_ID).build_query();
    assert_eq!(query, expected_string);
}

#[test]
fn projects_build_query_archived() {
    let expected_string = format!("groups/{}/projects?archived=true", TEST_PROJECT_ID);
    let query = GroupsLister::new().projects(TEST_PROJECT_ID).archived(true).build_query();
    assert_eq!(query, expected_string);

    let expected_string = format!("groups/{}/projects?archived=false", TEST_PROJECT_ID);
    let query = GroupsLister::new().projects(TEST_PROJECT_ID).archived(false).build_query();
    assert_eq!(query, expected_string);
}

#[test]
fn projects_build_query_visibility() {
    let expected_string = format!("groups/{}/projects?visibility=public", TEST_PROJECT_ID);
    let query = GroupsLister::new()
        .projects(TEST_PROJECT_ID)
        .visibility(ListingVisibility::Public)
        .build_query();
    assert_eq!(query, expected_string);

    let expected_string = format!("groups/{}/projects?visibility=internal", TEST_PROJECT_ID);
    let query = GroupsLister::new()
        .projects(TEST_PROJECT_ID)
        .visibility(ListingVisibility::Internal)
        .build_query();
    assert_eq!(query, expected_string);

    let expected_string = format!("groups/{}/projects?visibility=private", TEST_PROJECT_ID);
    let query = GroupsLister::new()
        .projects(TEST_PROJECT_ID)
        .visibility(ListingVisibility::Private)
        .build_query();
    assert_eq!(query, expected_string);
}

#[test]
fn projects_build_query_order_by() {
    let expected_string = format!("groups/{}/projects?order_by=id", TEST_PROJECT_ID);
    let query = GroupsLister::new()
        .projects(TEST_PROJECT_ID)
        .order_by(ListingOrderBy::Id)
        .build_query();
    assert_eq!(query, expected_string);

    let expected_string = format!("groups/{}/projects?order_by=name", TEST_PROJECT_ID);
    let query = GroupsLister::new()
        .projects(TEST_PROJECT_ID)
        .order_by(ListingOrderBy::Name)
        .build_query();
    assert_eq!(query, expected_string);

    let expected_string = format!("groups/{}/projects?order_by=path", TEST_PROJECT_ID);
    let query = GroupsLister::new()
        .projects(TEST_PROJECT_ID)
        .order_by(ListingOrderBy::Path)
        .build_query();
    assert_eq!(query, expected_string);

    let expected_string = format!("groups/{}/projects?order_by=created_at", TEST_PROJECT_ID);
    let query = GroupsLister::new()
        .projects(TEST_PROJECT_ID)
        .order_by(ListingOrderBy::CreatedAt)
        .build_query();
    assert_eq!(query, expected_string);

    let expected_string = format!("groups/{}/projects?order_by=updated_at", TEST_PROJECT_ID);
    let query = GroupsLister::new()
        .projects(TEST_PROJECT_ID)
        .order_by(ListingOrderBy::UpdatedAt)
        .build_query();
    assert_eq!(query, expected_string);

    let expected_string = format!("groups/{}/projects?order_by=last_activity_at", TEST_PROJECT_ID);
    let query = GroupsLister::new()
        .projects(TEST_PROJECT_ID)
        .order_by(ListingOrderBy::LastActivityAt)
        .build_query();
    assert_eq!(query, expected_string);
}

#[test]
fn projects_build_query_sort() {
    let expected_string = format!("groups/{}/projects?sort=asc", TEST_PROJECT_ID);
    let query = GroupsLister::new().projects(TEST_PROJECT_ID).sort(ListingSort::Asc).build_query();
    assert_eq!(query, expected_string);

    let expected_string = format!("groups/{}/projects?sort=desc", TEST_PROJECT_ID);
    let query = GroupsLister::new().projects(TEST_PROJECT_ID).sort(ListingSort::Desc).build_query();
    assert_eq!(query, expected_string);
}

#[test]
fn projects_build_query_search() {
    let expected_string = format!("groups/{}/projects?search=SearchPattern", TEST_PROJECT_ID);
    let query = GroupsLister::new()
        .projects(TEST_PROJECT_ID)
        .search(String::from("SearchPattern"))
        .build_query();
    assert_eq!(query, expected_string);
}

#[test]
fn build_query_ci_enabled_first() {
    let expected_string = format!("groups/{}/projects?ci_enabled_first=true", TEST_PROJECT_ID);
    let query = GroupsLister::new()
        .projects(TEST_PROJECT_ID)
        .ci_enabled_first(true)
        .build_query();
    assert_eq!(query, expected_string);

    let expected_string = format!("groups/{}/projects?ci_enabled_first=false", TEST_PROJECT_ID);
    let query = GroupsLister::new()
        .projects(TEST_PROJECT_ID)
        .ci_enabled_first(false)
        .build_query();
    assert_eq!(query, expected_string);
}

#[test]
fn projects_build_query_multiple() {
    let expected_string = format!(
        "groups/{}/projects?archived=true&ci_enabled_first=true",
        TEST_PROJECT_ID
    );
    let query = GroupsLister::new()
        .projects(TEST_PROJECT_ID)
        .archived(true)
        .ci_enabled_first(true)
        .build_query();
    assert_eq!(query, expected_string);
}
