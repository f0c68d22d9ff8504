//! Startup decisions: choosing the bearer token from the candidate values
//! the environment offers.

use vstd::prelude::*;

verus! {

/// Picks the bearer token for the run: the primary candidate when it is
/// set, otherwise the fallback.  `None` means no token is available and the
/// run must abort before any network request is made.
pub fn select_token(primary: Option<String>, fallback: Option<String>) -> (r: Option<String>)
    ensures
        primary is Some ==> r == primary,
        primary is None ==> r == fallback,
{
    match primary {
        Some(t) => Some(t),
        None => fallback,
    }
}

} // verus!
