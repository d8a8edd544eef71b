use gitlab_api::projects::id;
use gitlab_api::projects::ListingId;
use gitlab_api::projects::ListingOrderBy;
use gitlab_api::projects::Project;
use gitlab_api::projects::ProjectsLister;
use gitlab_api::ListingSort;
use gitlab_api::ListingVisibility;

const TEST_PROJECT_ID: i64 = 123;
const TEST_PROJECT_NAME: &'static str = "group/project";
const TEST_SEARCH_QUERY: &'static str = "SearchPattern";

#[test]
fn projects_mod_build_query_default() {
    let expected_string = "projects";

    let projects_lister = ProjectsLister::new();
    let query = projects_lister.build_query();
    assert_eq!(query, expected_string);

    let query = ProjectsLister::new().build_query();
    assert_eq!(query, expected_string);
}

#[test]
fn projects_mod_build_query_archived() {
    let expected_string = "projects?archived=true";
    let query = ProjectsLister::new().archived(true).build_query();
    assert_eq!(query, expected_string);

    let expected_string = "projects?archived=false";
    let query = ProjectsLister::new().archived(false).build_query();
    assert_eq!(query, expected_string);
}

#[test]
fn projects_mod_build_query_visibility() {
    let expected_string = "projects?visibility=public";
    let query = ProjectsLister::new().visibility(ListingVisibility::Public).build_query();
    assert_eq!(query, expected_string);

    let expected_string = "projects?visibility=internal";
    let query = ProjectsLister::new().visibility(ListingVisibility::Internal).build_query();
    assert_eq!(query, expected_string);

    let expected_string = "projects?visibility=private";
    let query = ProjectsLister::new().visibility(ListingVisibility::Private).build_query();
    assert_eq!(query, expected_string);
}

#[test]
fn projects_mod_build_query_order_by() {
    let expected_string = "projects?order_by=id";
    let query = ProjectsLister::new().order_by(ListingOrderBy::Id).build_query();
    assert_eq!(query, expected_string);

    let expected_string = "projects?order_by=name";
    let query = ProjectsLister::new().order_by(ListingOrderBy::Name).build_query();
    assert_eq!(query, expected_string);

    let expected_string = "projects?order_by=path";
    let query = ProjectsLister::new().order_by(ListingOrderBy::Path).build_query();
    assert_eq!(query, expected_string);

    let expected_string = "projects?order_by=created_at";
    let query = ProjectsLister::new().order_by(ListingOrderBy::CreatedAt).build_query();
    assert_eq!(query, expected_string);

    let expected_string = "projects?order_by=updated_at";
    let query = ProjectsLister::new().order_by(ListingOrderBy::UpdatedAt).build_query();
    assert_eq!(query, expected_string);

    let expected_string = "projects?order_by=last_activity_at";
    let query = ProjectsLister::new().order_by(ListingOrderBy::LastActivityAt).build_query();
    assert_eq!(query, expected_string);
}

#[test]
fn projects_mod_build_query_sort() {
    let expected_string = "projects?sort=asc";
    let query = ProjectsLister::new().sort(ListingSort::Asc).build_query();
    assert_eq!(query, expected_string);

    let expected_string = "projects?sort=desc";
    let query = ProjectsLister::new().sort(ListingSort::Desc).build_query();
    assert_eq!(query, expected_string);
}

#[test]
fn projects_mod_build_query_search() {
    let expected_string = "projects?search=SearchPattern";
    let query = ProjectsLister::new().search_pattern(String::from("SearchPattern")).build_query();
    assert_eq!(query, expected_string);
}

#[test]
fn build_query_simple() {
    let expected_string = "projects?simple=true";
    let query = ProjectsLister::new().simple(true).build_query();
    assert_eq!(query, expected_string);

    let expected_string = "projects?simple=false";
    let query = ProjectsLister::new().simple(false).build_query();
    assert_eq!(query, expected_string);
}

#[test]
fn projects_mod_build_query_multiple() {
    let expected_string = "projects?archived=true&simple=true";
    let query = ProjectsLister::new().archived(true).simple(true).build_query();
    assert_eq!(query, expected_string);
}

#[test]
fn project_to_issues() {
    let project_id = 123;
    let project = Project { id: project_id, ..Default::default() };
    let issues_lister = format!("{:?}", project.issues());
    let default_issues_lister =
        format!("{:?}", gitlab_api::issues::project::IssuesLister::new(project_id));
    assert_eq!(issues_lister, default_issues_lister);
}

#[test]
fn project_to_merge_requests() {
    let project_id = 123;
    let project = Project { id: project_id, ..Default::default() };
    let merge_requests_lister = format!("{:?}", project.merge_requests());
    let default_merge_requests_lister =
        format!("{:?}", gitlab_api::merge_requests::MergeRequestsLister::new(project_id));
    assert_eq!(merge_requests_lister, default_merge_requests_lister);
}

#[test]
fn all_build_query_default() {
    let expected_string = "projects/all";
    let projects_lister = ProjectsLister::new().all();
    let query = projects_lister.build_query();
    assert_eq!(query, expected_string);

    let expected_string = "projects/all";
    let query = ProjectsLister::new().all().build_query();
    assert_eq!(query, expected_string);
}

#[test]
fn all_build_query_archived() {
    let expected_string = "projects/all?archived=true";
    let query = ProjectsLister::new().all().archived(true).build_query();
    assert_eq!(query, expected_string);

    let expected_string = "projects/all?archived=false";
    let query = ProjectsLister::new().all().archived(false).build_query();
    assert_eq!(query, expected_string);
}

#[test]
fn all_build_query_visibility() {
    let expected_string = "projects/all?visibility=public";
    let query = ProjectsLister::new().all().visibility(ListingVisibility::Public).build_query();
    assert_eq!(query, expected_string);

    let expected_string = "projects/all?visibility=internal";
    let query = ProjectsLister::new().all().visibility(ListingVisibility::Internal).build_query();
    assert_eq!(query, expected_string);

    let expected_string = "projects/all?visibility=private";
    let query = ProjectsLister::new().all().visibility(ListingVisibility::Private).build_query();
    assert_eq!(query, expected_string);
}

#[test]
fn all_build_query_order_by() {
    let expected_string = "projects/all?order_by=id";
    let query = ProjectsLister::new().all().order_by(ListingOrderBy::Id).build_query();
    assert_eq!(query, expected_string);

    let expected_string = "projects/all?order_by=name";
    let query = ProjectsLister::new().all().order_by(ListingOrderBy::Name).build_query();
    assert_eq!(query, expected_string);

    let expected_string = "projects/all?order_by=path";
    let query = ProjectsLister::new().all().order_by(ListingOrderBy::Path).build_query();
    assert_eq!(query, expected_string);

    let expected_string = "projects/all?order_by=created_at";
    let query = ProjectsLister::new().all().order_by(ListingOrderBy::CreatedAt).build_query();
    assert_eq!(query, expected_string);

    let expected_string = "projects/all?order_by=updated_at";
    let query = ProjectsLister::new().all().order_by(ListingOrderBy::UpdatedAt).build_query();
    assert_eq!(query, expected_string);

    let expected_string = "projects/all?order_by=last_activity_at";
    let query = ProjectsLister::new().all().order_by(ListingOrderBy::LastActivityAt).build_query();
    assert_eq!(query, expected_string);
}

#[test]
fn all_build_query_sort() {
    let expected_string = "projects/all?sort=asc";
    let query = ProjectsLister::new().all().sort(ListingSort::Asc).build_query();
    assert_eq!(query, expected_string);

    let expected_string = "projects/all?sort=desc";
    let query = ProjectsLister::new().all().sort(ListingSort::Desc).build_query();
    assert_eq!(query, expected_string);
}

#[test]
fn all_build_query_search() {
    let expected_string = "projects/all?search=SearchPattern";
    let query = ProjectsLister::new().all().search(String::from("SearchPattern")).build_query();
    assert_eq!(query, expected_string);
}

#[test]
fn all_build_query_multiple() {
    let expected_string = "projects/all?archived=false&sort=asc";
    let query = ProjectsLister::new().all().archived(false).sort(ListingSort::Asc).build_query();
    assert_eq!(query, expected_string);
}

#[test]
fn owned_projects_build_query_default() {
    let expected_string = "projects/owned";
    let query = ProjectsLister::new().owned().build_query();
    assert_eq!(query, expected_string);
}

#[test]
fn owned_projects_build_query_archived() {
    let expected_string = "projects/owned?archived=true";
    let query = ProjectsLister::new().owned().archived(true).build_query();
    assert_eq!(query, expected_string);
}

#[test]
fn build_query_id() {
    let expected_string = format!("projects/{}", TEST_PROJECT_ID);
    let query = ProjectsLister::new().id(ListingId::Id(TEST_PROJECT_ID)).build_query();
    assert_eq!(query, expected_string);

    let expected_string = format!(
        "projects/{}",
        TEST_PROJECT_NAME.to_string().replace("/", "%2F")
    );
    let query = ProjectsLister::new()
        .id(ListingId::NamespaceProject(TEST_PROJECT_NAME.to_string()))
        .build_query();
    assert_eq!(query, expected_string);
}

#[test]
fn id_project_lister_new() {
    let lister = id::ProjectsLister::new(ListingId::Id(7));
    assert_eq!(lister.build_query(), "projects/7");
}

#[test]
fn search_build_query_default() {
    let expected_string = format!("projects/search/{}", TEST_SEARCH_QUERY);

    let lister = ProjectsLister::new().search(TEST_SEARCH_QUERY.to_string());
    let query = lister.build_query();
    assert_eq!(query, expected_string);
}

#[test]
fn search_build_query_order_by() {
    let expected_string = format!("projects/search/{}?order_by=id", TEST_SEARCH_QUERY);
    let query = ProjectsLister::new()
        .search(TEST_SEARCH_QUERY.to_string())
        .order_by(ListingOrderBy::Id)
        .build_query();
    assert_eq!(query, expected_string);

    let expected_string = format!("projects/search/{}?order_by=name", TEST_SEARCH_QUERY);
    let query = ProjectsLister::new()
        .search(TEST_SEARCH_QUERY.to_string())
        .order_by(ListingOrderBy::Name)
        .build_query();
    assert_eq!(query, expected_string);

    let expected_string = format!("projects/search/{}?order_by=created_at", TEST_SEARCH_QUERY);
    let query = ProjectsLister::new()
        .search(TEST_SEARCH_QUERY.to_string())
        .order_by(ListingOrderBy::CreatedAt)
        .build_query();
    assert_eq!(query, expected_string);

    let expected_string = format!(
        "projects/search/{}?order_by=last_activity_at",
        TEST_SEARCH_QUERY
    );
    let query = ProjectsLister::new()
        .search(TEST_SEARCH_QUERY.to_string())
        .order_by(ListingOrderBy::LastActivityAt)
        .build_query();
    assert_eq!(query, expected_string);
}

#[test]
fn search_build_query_sort() {
    let expected_string = format!("projects/search/{}?sort=asc", TEST_SEARCH_QUERY);
    let query = ProjectsLister::new()
        .search(TEST_SEARCH_QUERY.to_string())
        .sort(ListingSort::Asc)
        .build_query();
    assert_eq!(query, expected_string);

    let expected_string = format!("projects/search/{}?sort=desc", TEST_SEARCH_QUERY);
    let query = ProjectsLister::new()
        .search(TEST_SEARCH_QUERY.to_string())
        .sort(ListingSort::Desc)
        .build_query();
    assert_eq!(query, expected_string);
}

#[test]
fn search_build_query_multiple() {
    let expected_string = format!(
        "projects/search/{}?order_by=created_at&sort=desc",
        TEST_SEARCH_QUERY
    );
    let query = ProjectsLister::new()
        .search(TEST_SEARCH_QUERY.to_string())
        .order_by(ListingOrderBy::CreatedAt)
        .sort(ListingSort::Desc)
        .build_query();
    assert_eq!(query, expected_string);
}

#[test]
fn project_matches_namespace_and_name() {
    let mut project = Project { id: 5, ..Default::default() };
    project.name = String::from("proj");
    project.namespace.name = String::from("grp");
    assert!(project.matches_namespace_and_name("grp", "proj"));
    assert!(!project.matches_namespace_and_name("grp", "other"));
    assert!(!project.matches_namespace_and_name("other", "proj"));
}
