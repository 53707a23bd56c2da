//! Wire-level helpers shared between services.

use vstd::prelude::*;

verus! {

/// A user's login name and authentication token, as carried in requests to
/// the authentication service.
#[derive(Debug, Clone, PartialEq)]
pub struct UserCredential {
    pub id: String,
    pub token: String,
}

impl UserCredential {
    /// Builds a credential from its parts.
    pub fn new(id: String, token: String) -> (r: UserCredential)
        ensures
            r.id@ == id@,
            r.token@ == token@,
    {
        UserCredential { id, token }
    }
}

} // verus!
