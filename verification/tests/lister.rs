use gh_backup::errors::ListError;
use gh_backup::lister::{Lister, PageOutcome, MAX_PAGES};
use gh_backup::model::RemoteRepository;

fn repo(name: &str) -> RemoteRepository {
    RemoteRepository {
        name: name.to_string(),
        full_name: format!("acme/{}", name),
        clone_url: format!("https://example.invalid/acme/{}.git", name),
    }
}

fn page(status: u16, names: &[&str]) -> PageOutcome {
    PageOutcome::Received {
        status,
        repos: names.iter().map(|n| repo(n)).collect(),
    }
}

#[test]
fn acme_two_full_pages_then_empty() {
    let mut lister = Lister::with_default_ceiling();
    assert_eq!(lister.next_request(), Some(1));
    lister.step(page(200, &["a", "b"]));
    assert_eq!(lister.next_request(), Some(2));
    lister.step(page(200, &["c"]));
    assert_eq!(lister.next_request(), Some(3));
    lister.step(page(200, &[]));
    assert_eq!(lister.next_request(), None);
    assert_eq!(lister.requests_made(), 3);
    let repos = lister.into_result().expect("listing should succeed");
    let names: Vec<&str> = repos.iter().map(|r| r.name.as_str()).collect();
    assert_eq!(names, vec!["a", "b", "c"]);
}

#[test]
fn empty_organisation_needs_one_request() {
    let mut lister = Lister::with_default_ceiling();
    lister.step(page(204, &[]));
    assert_eq!(lister.next_request(), None);
    assert_eq!(lister.requests_made(), 1);
    let repos = lister.into_result().expect("listing should succeed");
    assert!(repos.is_empty());
}

#[test]
fn default_ceiling_is_999_pages() {
    assert_eq!(MAX_PAGES, 999);
}

#[test]
fn ceiling_caps_requests_even_without_empty_page() {
    let mut lister = Lister::new(2);
    lister.step(page(200, &["a"]));
    assert_eq!(lister.next_request(), Some(2));
    lister.step(page(200, &["b"]));
    // The ceiling was reached: the listing finishes with what it has.
    assert_eq!(lister.next_request(), None);
    assert_eq!(lister.requests_made(), 2);
    let repos = lister.into_result().expect("listing should succeed");
    let names: Vec<&str> = repos.iter().map(|r| r.name.as_str()).collect();
    assert_eq!(names, vec!["a", "b"]);
}

#[test]
fn not_found_aborts_without_further_requests() {
    let mut lister = Lister::with_default_ceiling();
    lister.step(page(200, &["a"]));
    lister.step(page(404, &[]));
    assert_eq!(lister.next_request(), None);
    assert_eq!(lister.requests_made(), 2);
    // No partial results: the page already collected is discarded.
    assert_eq!(lister.into_result(), Err(ListError::OrganisationNotFound));
}

#[test]
fn forbidden_aborts_listing() {
    let mut lister = Lister::with_default_ceiling();
    lister.step(page(403, &[]));
    assert_eq!(lister.into_result(), Err(ListError::Forbidden));
}

#[test]
fn server_error_aborts_listing() {
    let mut lister = Lister::with_default_ceiling();
    lister.step(page(503, &[]));
    assert_eq!(lister.into_result(), Err(ListError::ServerError));
}

#[test]
fn unclassified_status_is_unknown() {
    let mut lister = Lister::with_default_ceiling();
    lister.step(page(301, &[]));
    assert_eq!(lister.into_result(), Err(ListError::Unknown));
}

#[test]
fn transport_failure_is_unknown() {
    let mut lister = Lister::with_default_ceiling();
    lister.step(PageOutcome::Failed);
    assert_eq!(lister.into_result(), Err(ListError::Unknown));
}

#[test]
fn list_error_messages() {
    assert_eq!(
        ListError::OrganisationNotFound.message(),
        "Organisation not found."
    );
    assert_eq!(ListError::Forbidden.message(), "Access forbidden.");
    assert_eq!(ListError::ServerError.message(), "Server error.");
    assert_eq!(ListError::Unknown.message(), "Unknown error.");
}
