use gh_backup::errors::{classify_git_failure, GitFailureClass, TransferError};
use gh_backup::model::RemoteRepository;
use gh_backup::orchestrator::{decide_action, Orchestrator, TransferKind, UnitState, DEFAULT_POOL_WIDTH};

fn repo(name: &str) -> RemoteRepository {
    RemoteRepository {
        name: name.to_string(),
        full_name: format!("acme/{}", name),
        clone_url: format!("https://example.invalid/acme/{}.git", name),
    }
}

#[test]
fn default_pool_width_is_ten() {
    assert_eq!(DEFAULT_POOL_WIDTH, 10);
}

#[test]
fn existing_target_is_fetched_never_cloned() {
    // backup_dir/foo already exists as a valid local repository: the unit
    // must update it via its remotes, never clone over it.
    let mut orch = Orchestrator::new(vec![repo("foo")], DEFAULT_POOL_WIDTH);
    assert_eq!(orch.state_of(0), UnitState::Pending);
    orch.dispatch(0);
    assert_eq!(orch.state_of(0), UnitState::Dispatched);
    let kind = orch.begin_transfer(0, true);
    assert_eq!(kind, TransferKind::FetchExisting);
    assert_eq!(orch.state_of(0), UnitState::Fetching);
    orch.complete(0, Ok(()));
    assert_eq!(orch.state_of(0), UnitState::Succeeded);
    assert!(orch.all_succeeded());
}

#[test]
fn absent_target_is_cloned() {
    let mut orch = Orchestrator::new(vec![repo("bar")], DEFAULT_POOL_WIDTH);
    orch.dispatch(0);
    let kind = orch.begin_transfer(0, false);
    assert_eq!(kind, TransferKind::CloneNew);
    assert_eq!(orch.state_of(0), UnitState::Cloning);
}

#[test]
fn pool_ceiling_limits_concurrent_transfers() {
    let mut orch = Orchestrator::new(vec![repo("a"), repo("b"), repo("c")], 2);
    orch.dispatch(0);
    orch.dispatch(1);
    orch.dispatch(2);
    assert!(orch.has_slot());
    orch.begin_transfer(0, false);
    assert!(orch.has_slot());
    orch.begin_transfer(1, false);
    // Both slots are taken: the third unit has to wait.
    assert!(!orch.has_slot());
    orch.complete(0, Ok(()));
    assert!(orch.has_slot());
    orch.begin_transfer(2, false);
    assert!(!orch.has_slot());
    orch.complete(1, Ok(()));
    orch.complete(2, Ok(()));
    assert!(orch.all_succeeded());
}

#[test]
fn one_failure_does_not_block_siblings() {
    let mut orch = Orchestrator::new(vec![repo("a"), repo("b"), repo("c")], 2);
    for i in 0..3 {
        orch.dispatch(i);
    }
    orch.begin_transfer(0, false);
    orch.begin_transfer(1, false);
    // Unit 1 fails mid-pool; its siblings still run to success.
    orch.complete(1, Err(TransferError::Network));
    orch.begin_transfer(2, false);
    orch.complete(0, Ok(()));
    orch.complete(2, Ok(()));
    assert_eq!(orch.state_of(0), UnitState::Succeeded);
    assert_eq!(orch.state_of(1), UnitState::Failed(TransferError::Network));
    assert_eq!(orch.state_of(2), UnitState::Succeeded);
    // The failure must surface in the overall outcome.
    assert!(!orch.all_succeeded());
}

#[test]
fn second_run_fetches_what_the_first_cloned() {
    // First run: the target does not exist yet, so the unit clones.
    assert_eq!(decide_action(false), TransferKind::CloneNew);
    // A successful clone creates the target path; the second run over the
    // same backup directory therefore updates, never clones again.
    let target_exists_after_first_run = true;
    assert_eq!(
        decide_action(target_exists_after_first_run),
        TransferKind::FetchExisting
    );
}

#[test]
fn empty_repository_list_succeeds() {
    let orch = Orchestrator::new(Vec::new(), DEFAULT_POOL_WIDTH);
    assert_eq!(orch.len(), 0);
    assert!(orch.all_succeeded());
}

#[test]
fn units_keep_listing_order() {
    let orch = Orchestrator::new(vec![repo("a"), repo("b"), repo("c")], 1);
    assert_eq!(orch.len(), 3);
    assert_eq!(orch.repo_at(0).name, "a");
    assert_eq!(orch.repo_at(1).name, "b");
    assert_eq!(orch.repo_at(2).name, "c");
    assert_eq!(orch.pool_width(), 1);
}

#[test]
fn git_failure_classification() {
    assert_eq!(classify_git_failure(GitFailureClass::Net), TransferError::Network);
    assert_eq!(classify_git_failure(GitFailureClass::Http), TransferError::Network);
    assert_eq!(classify_git_failure(GitFailureClass::Ssl), TransferError::Network);
    assert_eq!(classify_git_failure(GitFailureClass::Ssh), TransferError::Network);
    assert_eq!(
        classify_git_failure(GitFailureClass::Auth),
        TransferError::Authentication
    );
    assert_eq!(
        classify_git_failure(GitFailureClass::Callback),
        TransferError::Authentication
    );
    assert_eq!(
        classify_git_failure(GitFailureClass::Os),
        TransferError::LocalFilesystem
    );
    assert_eq!(
        classify_git_failure(GitFailureClass::Filesystem),
        TransferError::LocalFilesystem
    );
    assert_eq!(
        classify_git_failure(GitFailureClass::Other),
        TransferError::Unknown
    );
}
