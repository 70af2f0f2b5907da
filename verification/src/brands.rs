//! Branded identifier types.
//!
//! A brand wraps a plain representation in a dedicated type so that values
//! with different roles cannot be mixed up, while the wrapped value stays
//! reachable through forwarding accessors.

use vstd::prelude::*;

verus! {

/// A branded user identifier backed by its string form.
#[derive(Clone, Debug, Hash, PartialEq, PartialOrd)]
pub struct UserId(pub String);

impl UserId {
    /// Read access to the wrapped string, as a dereference would give it.
    pub fn inner(&self) -> (r: &String)
        ensures
            r == self.0,
    {
        &self.0
    }

    /// Write access to the wrapped string: replaces it wholesale.
    pub fn set_inner(&mut self, s: String)
        ensures
            final(self).0 == s,
    {
        self.0 = s;
    }
}

} // verus!
