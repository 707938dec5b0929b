//! Single-use nonce enforcement: a one-shot sequence that yields its nonce
//! exactly once, so that a nonce/key pair can drive exactly one seal or one
//! open operation and is never handed out twice.

use vstd::prelude::*;

use crate::ShieldError;

verus! {

/// A nonce sequence that issues its single nonce on the first request and
/// refuses every later one.
pub struct OneNonceSequence {
    nonce: Option<Vec<u8>>,
}

impl OneNonceSequence {
    /// The nonce still to be issued, if any.
    pub closed spec fn pending(self) -> Option<Seq<u8>> {
        match self.nonce {
            Some(n) => Some(n@),
            None => None,
        }
    }

    /// Wraps a nonce so that it can be issued at most once.
    pub fn new(nonce: Vec<u8>) -> (r: Self)
        ensures
            r.pending() == Some(nonce@),
    {
        OneNonceSequence { nonce: Some(nonce) }
    }

    /// Yields the wrapped nonce exactly once: the first request receives it,
    /// and every later request is refused.
    pub fn advance(&mut self) -> (r: Result<Vec<u8>, ShieldError>)
        ensures
            final(self).pending() is None,
            old(self).pending() is Some ==> r is Ok && r.unwrap()@ == old(
                self,
            ).pending().unwrap(),
            old(self).pending() is None ==> r == Err::<Vec<u8>, ShieldError>(
                ShieldError::NonceReused,
            ),
    {
        match self.nonce.take() {
            Some(n) => Ok(n),
            None => Err(ShieldError::NonceReused),
        }
    }
}

} // verus!
