//! What a token says of its bearer.

use vstd::prelude::*;

verus! {

/// The payload of a token: who it was handed to, and the second of the epoch
/// at which it stops being good.
#[derive(Debug, PartialEq, Eq)]
pub struct JwtClaims {
    pub sub: String,
    pub exp: usize,
}

impl Clone for JwtClaims {
    fn clone(&self) -> (copy: Self)
        ensures
            copy == *self,
    {
        JwtClaims { sub: self.sub.clone(), exp: self.exp }
    }
}

/// `JwtClaims` with the subject as a sequence of characters.
pub struct JwtClaimsView {
    pub sub: Seq<char>,
    pub exp: usize,
}

impl View for JwtClaims {
    type V = JwtClaimsView;

    open spec fn view(&self) -> JwtClaimsView {
        JwtClaimsView { sub: self.sub@, exp: self.exp }
    }
}

} // verus!
