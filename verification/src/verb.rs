//! The request methods the client offers.

use vstd::prelude::*;

verus! {

/// An HTTP request method.
#[derive(Clone, Copy, Debug, PartialEq, Eq, Structural)]
pub enum Verb {
    Get,
    Post,
    Put,
    Delete,
    Patch,
}

impl Verb {
    /// The method token as it is written on the wire.
    pub open spec fn token(self) -> Seq<char> {
        match self {
            Verb::Get => "GET"@,
            Verb::Post => "POST"@,
            Verb::Put => "PUT"@,
            Verb::Delete => "DELETE"@,
            Verb::Patch => "PATCH"@,
        }
    }

    /// Returns the method token, in upper case.
    pub fn name(self) -> (r: &'static str)
        ensures
            r@ == self.token(),
    {
        match self {
            Verb::Get => "GET",
            Verb::Post => "POST",
            Verb::Put => "PUT",
            Verb::Delete => "DELETE",
            Verb::Patch => "PATCH",
        }
    }
}

} // verus!
