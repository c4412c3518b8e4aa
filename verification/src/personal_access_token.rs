//! Personal access tokens.

use vstd::prelude::*;

verus! {

/// Identifier of a personal access token.
#[derive(Debug, Eq, PartialEq)]
pub struct PersonalAccessTokenId(pub(crate) String);

impl PersonalAccessTokenId {
    pub fn new(id: String) -> (r: Self)
        ensures
            r.spec_value() == id@,
    {
        Self(id)
    }

    pub fn value(&self) -> (r: &str)
        ensures
            r@ == self.spec_value(),
    {
        self.0.as_str()
    }

    /// The identifier as it was given.
    pub closed spec fn spec_value(&self) -> Seq<char> {
        self.0@
    }
}

impl Clone for PersonalAccessTokenId {
    fn clone(&self) -> (r: Self)
        ensures
            r == *self,
    {
        Self(self.0.clone())
    }
}

} // verus!
