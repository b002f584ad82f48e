use octocrab::Octocrab;
use repo_activity::fetch::FetchPlan;
use repo_activity::RepoRef;

fn repo(authenticated: bool) -> RepoRef {
    let runtime = tokio::runtime::Builder::new_current_thread().enable_all().build().unwrap();
    let _inside = runtime.enter();
    let octocrab = Octocrab::builder().build().unwrap();
    RepoRef::new(octocrab, authenticated, "rust-lang".to_string(), "rust".to_string())
}

#[test]
fn authenticated_session_requests_pages_at_once() {
    let repo = repo(true);
    assert!(repo.parallelize);
    assert_eq!(repo.owner, "rust-lang");
    assert_eq!(repo.repo, "rust");
    assert_eq!(repo.fetch_plan(Some(3)), FetchPlan::Concurrent { number_of_pages: 3 });
    assert_eq!(repo.fetch_plan(None), FetchPlan::Sequential);
}

#[test]
fn unauthenticated_session_walks_the_pages() {
    let repo = repo(false);
    assert!(!repo.parallelize);
    assert_eq!(repo.fetch_plan(Some(3)), FetchPlan::Sequential);
    assert_eq!(repo.fetch_plan(None), FetchPlan::Sequential);
}
