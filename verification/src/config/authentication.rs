//! The key material that tokens are signed and checked with.

use vstd::prelude::*;

verus! {

/// The secret that signs tokens and checks their signatures. It is made once,
/// when the service starts, and handed to whoever issues or checks tokens.
pub struct Keys {
    secret: Vec<u8>,
}

impl Keys {
    /// The bytes of the secret.
    pub closed spec fn secret(&self) -> Seq<u8> {
        self.secret@
    }

    /// The keys that are made of `secret`.
    pub fn new(secret: Vec<u8>) -> (keys: Self)
        ensures
            keys.secret() == secret@,
    {
        Keys { secret }
    }

    /// The secret, for the call that signs or checks with it.
    pub fn as_bytes(&self) -> (bytes: &[u8])
        ensures
            bytes@ == self.secret(),
    {
        self.secret.as_slice()
    }
}

} // verus!
