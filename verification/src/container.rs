//! The encrypted-at-rest container and the scope-bound decrypted view.
//!
//! A `Shielded` container owns a buffer that holds ciphertext plus an
//! authentication tag, together with the ephemeral prekey and nonce used to
//! produce it. `unshield` decrypts the buffer in place and hands out an
//! `UnShielded` view, consuming the container so that no second view and no
//! competing seal operation can exist while the plaintext is exposed;
//! `reshield` consumes the view and returns the container to its protected
//! state under freshly generated key material.

use vstd::prelude::*;
use vstd::slice::slice_subrange;
use vstd::slice::slice_to_vec;

use crate::crypto::aead_open;
use crate::crypto::aead_seal;
use crate::crypto::derived_key_of;
use crate::crypto::fits_cipher;
use crate::crypto::new_nonce;
use crate::crypto::new_prekey;
use crate::crypto::new_rng;
use crate::crypto::prekey_to_key;
use crate::crypto::seal_bytes;
use crate::nonce_guard::OneNonceSequence;
use crate::ShieldError;
use crate::MAGIC_BYTE;
use crate::NONCE_LEN;
use crate::PREKEY_LEN;
use crate::TAG_LEN;

verus! {

/// A piece of memory held encrypted, together with the single-use key
/// material that sealed it.
pub struct Shielded {
    prekey: Vec<u8>,
    nonce: Vec<u8>,
    memory: Vec<u8>,
}

impl Shielded {
    /// The stored prekey bytes.
    pub closed spec fn prekey_view(self) -> Seq<u8> {
        self.prekey@
    }

    /// The stored nonce bytes.
    pub closed spec fn nonce_view(self) -> Seq<u8> {
        self.nonce@
    }

    /// The stored buffer: ciphertext with the authentication tag appended.
    pub closed spec fn memory_view(self) -> Seq<u8> {
        self.memory@
    }

    /// The length invariants the container maintains across construction and
    /// every reseal: the prekey and nonce lengths are constant, and the
    /// sealed buffer stays within what the cipher accepts.
    pub open spec fn well_formed(self) -> bool {
        &&& self.prekey_view().len() == PREKEY_LEN
        &&& self.nonce_view().len() == NONCE_LEN
        &&& fits_cipher(self.memory_view().len() - TAG_LEN)
    }

    /// The container's buffer is exactly what sealing `p` under the key
    /// derived from the current prekey, with the current nonce and the
    /// prekey as associated data, produces.
    pub open spec fn holds_plaintext(self, p: Seq<u8>) -> bool {
        &&& p.len() + TAG_LEN == self.memory_view().len()
        &&& self.memory_view() == seal_bytes(
            derived_key_of(self.prekey_view()),
            self.nonce_view(),
            self.prekey_view(),
            p,
        )
    }

    /// Takes ownership of a plaintext buffer and seals it immediately: a
    /// fresh prekey and nonce are drawn from the secure random source, the
    /// cipher key is derived from the prekey, and the buffer is encrypted in
    /// place with the prekey bound as associated data and the tag appended.
    /// The length bounds are what the cipher and the address space force; an
    /// entropy-source failure aborts.
    pub fn new(buf: Vec<u8>) -> (r: Shielded)
        requires
            buf@.len() + TAG_LEN <= usize::MAX,
            fits_cipher(buf@.len() as int),
        ensures
            r.well_formed(),
            r.holds_plaintext(buf@),
            r.memory_view().len() == buf@.len() + TAG_LEN,
    {
        let mut shielded = Shielded {
            prekey: vec![MAGIC_BYTE; PREKEY_LEN],
            nonce: vec![MAGIC_BYTE; NONCE_LEN],
            memory: buf,
        };
        shielded.shield();
        shielded
    }

    /// Seals the current buffer contents under brand-new key material,
    /// replacing the stored prekey and nonce; the superseded pair is
    /// discarded and never reused.
    fn shield(&mut self)
        requires
            old(self).memory@.len() + TAG_LEN <= usize::MAX,
            fits_cipher(old(self).memory@.len() as int),
        ensures
            final(self).well_formed(),
            final(self).holds_plaintext(old(self).memory@),
            final(self).memory_view().len() == old(self).memory@.len() + TAG_LEN,
    {
        let rng = new_rng();
        let prekey = new_prekey(&rng);
        let nonce_bytes = new_nonce(&rng);
        let key = prekey_to_key(prekey.as_slice());
        let mut one_nonce = OneNonceSequence::new(nonce_bytes);
        let nonce = one_nonce.advance().unwrap();
        aead_seal(key.as_slice(), nonce.as_slice(), prekey.as_slice(), &mut self.memory);
        self.prekey = prekey;
        self.nonce = nonce;
    }

    /// Decrypts the buffer in place: the cipher key is re-derived from the
    /// stored prekey, the tag is verified over the buffer and the prekey,
    /// and on success a view over the recovered plaintext is returned,
    /// holding the container exclusively. Succeeds exactly when the buffer
    /// still is what sealing some plaintext under the stored key material
    /// produced, and then recovers that plaintext; any corruption of the
    /// buffer, tag or prekey is an integrity failure, and no plaintext is
    /// returned.
    pub fn unshield(self) -> (r: Result<UnShielded, ShieldError>)
        requires
            self.well_formed(),
        ensures
            forall|p: Seq<u8>|
                #[trigger] self.holds_plaintext(p) ==> r is Ok
                    && r.unwrap().plaintext_view() == p,
            r is Ok ==> r.unwrap().well_formed() && self.holds_plaintext(
                r.unwrap().plaintext_view(),
            ) && r.unwrap().container().prekey_view() == self.prekey_view()
                && r.unwrap().container().nonce_view() == self.nonce_view(),
            r is Err ==> r == Err::<UnShielded, ShieldError>(ShieldError::Integrity),
    {
        let mut s = self;
        let key = prekey_to_key(s.prekey.as_slice());
        let nonce_copy = slice_to_vec(s.nonce.as_slice());
        let mut one_nonce = OneNonceSequence::new(nonce_copy);
        let nonce = one_nonce.advance().unwrap();
        let opened = aead_open(
            key.as_slice(),
            nonce.as_slice(),
            s.prekey.as_slice(),
            &mut s.memory,
        );
        match opened {
            Some(plaintext_len) => Ok(UnShielded { shielded: s, plaintext_len }),
            None => Err(ShieldError::Integrity),
        }
    }

    /// Read-only view of the stored prekey.
    pub fn prekey_bytes(&self) -> (r: &[u8])
        ensures
            r@ == self.prekey_view(),
    {
        self.prekey.as_slice()
    }

    /// Read-only view of the stored nonce.
    pub fn nonce_bytes(&self) -> (r: &[u8])
        ensures
            r@ == self.nonce_view(),
    {
        self.nonce.as_slice()
    }

    /// Read-only view of the sealed buffer: ciphertext plus tag.
    pub fn memory_bytes(&self) -> (r: &[u8])
        ensures
            r@ == self.memory_view(),
    {
        self.memory.as_slice()
    }

    /// Reassembles a container from parts captured through the read-only
    /// views, e.g. to reproduce a corrupted container and show that the
    /// corruption is detected on the next decryption. Returns `None` exactly
    /// when the part lengths cannot belong to a container.
    pub fn from_parts(prekey: Vec<u8>, nonce: Vec<u8>, memory: Vec<u8>) -> (r: Option<Shielded>)
        ensures
            r is Some <==> prekey@.len() == PREKEY_LEN && nonce@.len() == NONCE_LEN
                && fits_cipher(memory@.len() - TAG_LEN),
            r is Some ==> r.unwrap().prekey_view() == prekey@ && r.unwrap().nonce_view() == nonce@
                && r.unwrap().memory_view() == memory@ && r.unwrap().well_formed(),
    {
        // The buffer bound is the `fits_cipher` limit plus the tag.
        if prekey.len() == PREKEY_LEN && nonce.len() == NONCE_LEN && (memory.len() as u64)
            <= 274_877_906_880u64 + (TAG_LEN as u64) {
            Some(Shielded { prekey, nonce, memory })
        } else {
            None
        }
    }
}

/// A short-lived view over the decrypted contents of a `Shielded` container.
/// It owns the container for its whole lifetime, so no second view and no
/// seal operation can run while the plaintext is exposed; `reshield` is the
/// only way to get the container back, and it reseals unconditionally.
pub struct UnShielded {
    shielded: Shielded,
    plaintext_len: usize,
}

impl UnShielded {
    /// The container the view holds exclusively. Its buffer carries the
    /// recovered plaintext as its prefix and residual tag bytes beyond it.
    pub closed spec fn container(self) -> Shielded {
        self.shielded
    }

    /// Length of the recovered plaintext, set at decrypt time.
    pub closed spec fn plaintext_len_view(self) -> nat {
        self.plaintext_len as nat
    }

    /// The recovered plaintext: the prefix of the buffer up to the recorded
    /// plaintext length.
    pub open spec fn plaintext_view(self) -> Seq<u8> {
        self.container().memory_view().subrange(0, self.plaintext_len_view() as int)
    }

    /// What every view created by `unshield` satisfies: the container keeps
    /// its length invariants, and the buffer is exactly the plaintext
    /// followed by the residual tag bytes.
    pub open spec fn well_formed(self) -> bool {
        &&& self.container().prekey_view().len() == PREKEY_LEN
        &&& self.container().nonce_view().len() == NONCE_LEN
        &&& self.plaintext_len_view() + TAG_LEN == self.container().memory_view().len()
        &&& fits_cipher(self.plaintext_len_view() as int)
    }

    /// Read-only view of the recovered plaintext.
    pub fn as_plaintext(&self) -> (r: &[u8])
        requires
            self.well_formed(),
        ensures
            r@ == self.plaintext_view(),
    {
        slice_subrange(self.shielded.memory.as_slice(), 0, self.plaintext_len)
    }

    /// Length of the recovered plaintext.
    pub fn plaintext_len(&self) -> (r: usize)
        ensures
            r == self.plaintext_len_view(),
    {
        self.plaintext_len
    }

    /// Releases the view: the buffer is truncated back to the plaintext and
    /// resealed under a freshly generated prekey and nonce, and the
    /// container is returned in its protected state. This is the only exit
    /// from the decrypted state, so the re-protection cannot be skipped.
    pub fn reshield(self) -> (r: Shielded)
        requires
            self.well_formed(),
        ensures
            r.well_formed(),
            r.holds_plaintext(self.plaintext_view()),
            r.memory_view().len() == self.plaintext_view().len() + TAG_LEN,
    {
        let UnShielded { shielded: mut s, plaintext_len } = self;
        s.memory.truncate(plaintext_len);
        s.shield();
        s
    }
}

} // verus!
