//! Sessions of the service.

use vstd::prelude::*;

verus! {

/// A session that the service has opened for one database. It is known by
/// the name that the service gave it, and belongs to whoever holds it.
#[derive(Debug, PartialEq, Eq)]
pub struct Session(pub String);

impl Session {
    /// The session that the service named `name`.
    pub fn new(name: String) -> (r: Session)
        ensures
            r.0 == name,
    {
        Session(name)
    }

    /// The name that the service gave this session.
    pub fn name(&self) -> (r: &str)
        ensures
            r@ == self.0@,
    {
        self.0.as_str()
    }
}

} // verus!
