use gh_backup::config::select_token;
use gh_backup::errors::IdentityError;
use gh_backup::identity::{resolve_identity, IdentityOutcome};
use gh_backup::model::{AuthenticatedUser, Credentials};

#[test]
fn success_resolves_login() {
    let outcome = IdentityOutcome::Received {
        status: 200,
        login: Some("octocat".to_string()),
    };
    let user = resolve_identity(outcome).expect("identity should resolve");
    assert_eq!(user.login, "octocat");
}

#[test]
fn forbidden_aborts_identity() {
    let outcome = IdentityOutcome::Received { status: 403, login: None };
    assert!(matches!(
        resolve_identity(outcome),
        Err(IdentityError::Forbidden)
    ));
}

#[test]
fn server_error_aborts_identity() {
    let outcome = IdentityOutcome::Received { status: 500, login: None };
    assert!(matches!(
        resolve_identity(outcome),
        Err(IdentityError::ServerError)
    ));
}

#[test]
fn other_status_is_unknown() {
    let outcome = IdentityOutcome::Received { status: 404, login: None };
    assert!(matches!(
        resolve_identity(outcome),
        Err(IdentityError::Unknown)
    ));
}

#[test]
fn parse_failure_is_unknown() {
    let outcome = IdentityOutcome::Received { status: 200, login: None };
    assert!(matches!(
        resolve_identity(outcome),
        Err(IdentityError::Unknown)
    ));
}

#[test]
fn identity_transport_failure_is_unknown() {
    assert!(matches!(
        resolve_identity(IdentityOutcome::Failed),
        Err(IdentityError::Unknown)
    ));
}

#[test]
fn identity_error_messages() {
    assert_eq!(IdentityError::Forbidden.message(), "Access forbidden.");
    assert_eq!(IdentityError::ServerError.message(), "Server error.");
    assert_eq!(IdentityError::Unknown.message(), "Unknown error.");
}

#[test]
fn primary_token_wins() {
    let picked = select_token(Some("primary".to_string()), Some("fallback".to_string()));
    assert_eq!(picked, Some("primary".to_string()));
}

#[test]
fn fallback_token_when_primary_unset() {
    let picked = select_token(None, Some("fallback".to_string()));
    assert_eq!(picked, Some("fallback".to_string()));
}

#[test]
fn no_token_means_abort_before_any_request() {
    assert_eq!(select_token(None, None), None);
}

#[test]
fn credentials_pair_login_with_token() {
    let user = AuthenticatedUser { login: "octocat".to_string() };
    let creds = Credentials::new(&user, &"token-value".to_string());
    assert_eq!(creds.username, "octocat");
    assert_eq!(creds.token, "token-value");
    let copy = creds.duplicate();
    assert_eq!(copy.username, creds.username);
    assert_eq!(copy.token, creds.token);
}
