//! Stateless reset tokens (RFC 9000, section 10.3).
use vstd::prelude::*;

verus! {

/// The length of a stateless reset token: 128 bits.
pub const TOKEN_LEN: usize = 16usize;

/// A 128-bit value that lets an endpoint recognize a stateless reset from
/// its peer.
#[derive(Clone, Copy, Debug, PartialEq, Eq)]
pub struct Token([u8; TOKEN_LEN]);

impl View for Token {
    type V = Seq<u8>;

    closed spec fn view(&self) -> Seq<u8> {
        self.0@
    }
}

impl Token {
    pub fn new(bytes: [u8; TOKEN_LEN]) -> (t: Token)
        ensures
            t@ == bytes@,
    {
        Token(bytes)
    }

    /// Every token has 16 bytes.
    pub proof fn lemma_len(&self)
        ensures
            self@.len() == TOKEN_LEN,
    {
    }

    pub fn as_bytes(&self) -> (r: &[u8])
        ensures
            r@ == self@,
            r@.len() == TOKEN_LEN,
    {
        self.0.as_slice()
    }
}

} // verus!
