//! What a call to the service is authorised with.

use crate::text::joined;
use vstd::prelude::*;

verus! {

/// What a token gives access to.
#[derive(Clone, Copy, Debug, PartialEq, Eq, Structural)]
pub enum Scopes {
    /// The data of databases.
    Database,
    /// The data of databases and the administration of instances.
    Admin,
}

impl Scopes {
    /// The scopes that a token is asked for, as the service names them.
    pub open spec fn names(self) -> Seq<Seq<char>> {
        match self {
            Scopes::Database => seq![
                "https://www.googleapis.com/auth/cloud-platform"@,
                "https://www.googleapis.com/auth/spanner.data"@,
            ],
            Scopes::Admin => seq![
                "https://www.googleapis.com/auth/cloud-platform"@,
                "https://www.googleapis.com/auth/spanner.data"@,
                "https://www.googleapis.com/auth/spanner.admin"@,
            ],
        }
    }

    /// The scopes that a token is asked for, as the service names them.
    pub fn as_slice(&self) -> (r: Vec<&'static str>)
        ensures
            r@.len() == self.names().len(),
            forall|i: int| 0 <= i < r@.len() ==> (#[trigger] r@[i])@ == self.names()[i],
    {
        let mut scopes: Vec<&'static str> = Vec::new();
        scopes.push("https://www.googleapis.com/auth/cloud-platform");
        scopes.push("https://www.googleapis.com/auth/spanner.data");
        match self {
            Scopes::Database => {},
            Scopes::Admin => {
                scopes.push("https://www.googleapis.com/auth/spanner.admin");
            },
        }
        scopes
    }
}

/// The value of the authorisation header that carries the given token.
pub fn bearer(token: &str) -> (r: String)
    ensures
        r@ == "Bearer "@ + token@,
{
    joined("Bearer ", token)
}

} // verus!
