//! The error taxonomy of the engine: one closed sum type per phase, plus the
//! classification of git transfer failures.

use vstd::prelude::*;

verus! {

/// Why resolving the authenticated user failed.  Any identity failure is
/// fatal to the whole run.
#[derive(Clone, Copy, Debug, PartialEq, Eq, Structural)]
pub enum IdentityError {
    Forbidden,
    ServerError,
    Unknown,
}

impl IdentityError {
    /// The diagnostic printed when the run aborts on this error.
    pub fn message(&self) -> (m: &'static str)
        ensures
            self is Forbidden ==> m@ == "Access forbidden."@,
            self is ServerError ==> m@ == "Server error."@,
            self is Unknown ==> m@ == "Unknown error."@,
    {
        match self {
            IdentityError::Forbidden => "Access forbidden.",
            IdentityError::ServerError => "Server error.",
            IdentityError::Unknown => "Unknown error.",
        }
    }
}

/// Why listing the organisation's repositories failed.  One page's failure
/// aborts the whole listing; no partial result is returned.
#[derive(Clone, Copy, Debug, PartialEq, Eq, Structural)]
pub enum ListError {
    OrganisationNotFound,
    Forbidden,
    ServerError,
    Unknown,
}

impl ListError {
    /// The diagnostic printed when the run aborts on this error.
    pub fn message(&self) -> (m: &'static str)
        ensures
            self is OrganisationNotFound ==> m@ == "Organisation not found."@,
            self is Forbidden ==> m@ == "Access forbidden."@,
            self is ServerError ==> m@ == "Server error."@,
            self is Unknown ==> m@ == "Unknown error."@,
    {
        match self {
            ListError::OrganisationNotFound => "Organisation not found.",
            ListError::Forbidden => "Access forbidden.",
            ListError::ServerError => "Server error.",
            ListError::Unknown => "Unknown error.",
        }
    }
}

/// How one repository's transfer failed.  Per-unit errors are recorded in
/// the report and never propagated to sibling units.
#[derive(Clone, Copy, Debug, PartialEq, Eq, Structural)]
pub enum TransferError {
    Network,
    Authentication,
    LocalFilesystem,
    Unknown,
}

/// The failure class reported by the git transfer collaborator, reduced to
/// the classes this engine distinguishes.  The caller translates the
/// collaborator's own class, one variant per variant.
#[derive(Clone, Copy, Debug, PartialEq, Eq, Structural)]
pub enum GitFailureClass {
    Net,
    Http,
    Ssl,
    Ssh,
    Auth,
    Callback,
    Os,
    Filesystem,
    Other,
}

/// Folds a git failure class into the engine's transfer-error taxonomy:
/// wire-level classes become `Network`, credential classes become
/// `Authentication`, local disk classes become `LocalFilesystem`, and
/// everything unclassified becomes `Unknown`.
pub open spec fn spec_classify_git_failure(class: GitFailureClass) -> TransferError {
    match class {
        GitFailureClass::Net => TransferError::Network,
        GitFailureClass::Http => TransferError::Network,
        GitFailureClass::Ssl => TransferError::Network,
        GitFailureClass::Ssh => TransferError::Network,
        GitFailureClass::Auth => TransferError::Authentication,
        GitFailureClass::Callback => TransferError::Authentication,
        GitFailureClass::Os => TransferError::LocalFilesystem,
        GitFailureClass::Filesystem => TransferError::LocalFilesystem,
        GitFailureClass::Other => TransferError::Unknown,
    }
}

/// Classifies one git transfer failure for the backup report.
pub fn classify_git_failure(class: GitFailureClass) -> (e: TransferError)
    ensures
        e == spec_classify_git_failure(class),
{
    match class {
        GitFailureClass::Net => TransferError::Network,
        GitFailureClass::Http => TransferError::Network,
        GitFailureClass::Ssl => TransferError::Network,
        GitFailureClass::Ssh => TransferError::Network,
        GitFailureClass::Auth => TransferError::Authentication,
        GitFailureClass::Callback => TransferError::Authentication,
        GitFailureClass::Os => TransferError::LocalFilesystem,
        GitFailureClass::Filesystem => TransferError::LocalFilesystem,
        GitFailureClass::Other => TransferError::Unknown,
    }
}

} // verus!
