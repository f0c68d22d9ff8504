//! Core data model: repositories, the authenticated user, and the transfer
//! credentials shared by every unit of work.

use vstd::prelude::*;

verus! {

/// One repository of the organisation, as reported by the listing endpoint.
/// Immutable once produced; `name` is unique within one organisation's
/// listing (an invariant of the remote API that this crate assumes).
#[derive(Debug, PartialEq, Eq)]
pub struct RemoteRepository {
    pub name: String,
    pub full_name: String,
    pub clone_url: String,
}

/// The principal that the token authenticates; its login becomes the
/// transfer username for every repository.
pub struct AuthenticatedUser {
    pub login: String,
}

/// Read-only transfer credentials, cloned into every concurrent unit of
/// work and never mutated after creation.
pub struct Credentials {
    pub username: String,
    pub token: String,
}

impl Credentials {
    /// Builds the credentials used for every network operation of a run:
    /// the resolved login paired with the bearer token.
    pub fn new(user: &AuthenticatedUser, token: &String) -> (c: Credentials)
        ensures
            c.username@ == user.login@,
            c.token@ == token@,
    {
        Credentials { username: user.login.clone(), token: token.clone() }
    }

    /// A field-for-field copy, handed to each unit of work so that no unit
    /// shares mutable state with its siblings.
    pub fn duplicate(&self) -> (c: Credentials)
        ensures
            c.username@ == self.username@,
            c.token@ == self.token@,
    {
        Credentials { username: self.username.clone(), token: self.token.clone() }
    }
}

} // verus!
