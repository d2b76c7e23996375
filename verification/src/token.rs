//! The correlation token that ties a readiness event to its registration.

use vstd::prelude::*;

verus! {

/// A caller-chosen identifier, handed in at registration and handed back,
/// unchanged and uninterpreted, with every readiness event.
#[derive(Clone, Copy, Debug, PartialEq, Eq, Structural, Hash)]
pub struct Token(pub usize);

impl Token {
    /// The identifier as a plain integer.
    pub fn as_usize(self) -> (r: usize)
        ensures
            r == self.0,
    {
        self.0
    }
}

} // verus!
