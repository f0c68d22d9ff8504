//! The identity resolver: classifies the outcome of the single "who am I"
//! request and produces the authenticated user whose login becomes the
//! transfer username.  There are no retries; any failure here is fatal to
//! the whole run.

use vstd::prelude::*;

use crate::errors::IdentityError;
use crate::lister::{is_server_error, is_success};
use crate::model::AuthenticatedUser;

verus! {

/// What the "who am I" request produced, as observed by the caller.
pub enum IdentityOutcome {
    /// The request could not be sent.
    Failed,
    /// A response arrived with this status code; `login` holds the login
    /// parsed from a success response's body, or `None` when parsing
    /// failed (or the response was no success and was never parsed).
    Received { status: u16, login: Option<String> },
}

/// The ghost mirror of [`IdentityOutcome`].
pub ghost enum IdentityEv {
    Failed,
    Received { status: u16, login: Option<Seq<char>> },
}

impl View for IdentityOutcome {
    type V = IdentityEv;

    open spec fn view(&self) -> IdentityEv {
        match self {
            IdentityOutcome::Failed => IdentityEv::Failed,
            IdentityOutcome::Received { status, login } => IdentityEv::Received {
                status: *status,
                login: match login {
                    Some(l) => Some(l@),
                    None => None,
                },
            },
        }
    }
}

/// The classification the resolver applies to the outcome: 403 is
/// `Forbidden`, any 5xx is `ServerError`, any other non-success status —
/// and any transport or parse failure — is `Unknown`; only a success
/// response with a parsed login resolves the user.
pub open spec fn spec_resolve_identity(ev: IdentityEv) -> Result<Seq<char>, IdentityError> {
    match ev {
        IdentityEv::Failed => Err(IdentityError::Unknown),
        IdentityEv::Received { status, login } => {
            if status == 403 {
                Err(IdentityError::Forbidden)
            } else if is_server_error(status) {
                Err(IdentityError::ServerError)
            } else if !is_success(status) {
                Err(IdentityError::Unknown)
            } else {
                match login {
                    Some(l) => Ok(l),
                    None => Err(IdentityError::Unknown),
                }
            }
        },
    }
}

/// Resolves the authenticated user from the outcome of the "who am I"
/// request, exactly as [`spec_resolve_identity`] classifies it.
pub fn resolve_identity(outcome: IdentityOutcome) -> (r: Result<AuthenticatedUser, IdentityError>)
    ensures
        r matches Ok(u) ==> spec_resolve_identity(outcome@) == Ok::<Seq<char>, IdentityError>(
            u.login@,
        ),
        r matches Err(e) ==> spec_resolve_identity(outcome@) == Err::<Seq<char>, IdentityError>(e),
{
    match outcome {
        IdentityOutcome::Failed => Err(IdentityError::Unknown),
        IdentityOutcome::Received { status, login } => {
            if status == 403 {
                Err(IdentityError::Forbidden)
            } else if 500 <= status && status <= 599 {
                Err(IdentityError::ServerError)
            } else if !(200 <= status && status <= 299) {
                Err(IdentityError::Unknown)
            } else {
                match login {
                    Some(l) => Ok(AuthenticatedUser { login: l }),
                    None => Err(IdentityError::Unknown),
                }
            }
        },
    }
}

} // verus!
