//! Shielded memory: protection at rest for secrets held in process memory.
//!
//! A [`Shielded`] container keeps a caller-supplied byte buffer encrypted
//! under ephemeral, single-use key material: a large high-entropy prekey is
//! drawn from the system's secure random source, hashed with SHA-512 to
//! derive a ChaCha20-Poly1305 key, and the buffer is sealed in place with the
//! prekey bound as additional authenticated data. Decrypting the buffer
//! yields an [`UnShielded`] view over the recovered plaintext; releasing the
//! view reseals the container under freshly generated key material, so the
//! plaintext exists only for the window in which a view is held.
//!
//! The large prekey raises the cost of key recovery through partial or noisy
//! memory-disclosure attacks: an attacker must read back the whole prekey
//! with a very low bit-error rate before the derived key becomes guessable.

use vstd::prelude::*;

mod container;
mod crypto;
mod nonce_guard;

pub use container::Shielded;
pub use container::UnShielded;
pub use crypto::derived_key_of;
pub use crypto::fits_cipher;
pub use crypto::prekey_to_key;
pub use crypto::seal_bytes;
pub use crypto::sha512_bytes;
pub use nonce_guard::OneNonceSequence;

verus! {

/// Length in bytes of the random prekey from which the cipher key is derived.
pub const PREKEY_LEN: usize = 16 * 1024;

/// Length in bytes of the nonce the cipher requires.
pub const NONCE_LEN: usize = 12;

/// Length in bytes of the cipher key.
pub const KEY_LEN: usize = 32;

/// Length in bytes of the authentication tag the cipher appends.
pub const TAG_LEN: usize = 16;

/// Marks allocated but not yet populated bytes.
pub const MAGIC_BYTE: u8 = 0xDF;

/// Failures that the container surfaces to its caller.
///
/// Entropy-source failure is not represented here: it is unrecoverable, has
/// no degraded mode, and aborts the process at the point where random bytes
/// are drawn.
#[derive(Clone, Copy, Debug, PartialEq, Eq, Structural)]
pub enum ShieldError {
    /// The authentication tag did not verify on decryption: the stored
    /// ciphertext, tag or prekey was corrupted or tampered with while the
    /// container was at rest.
    Integrity,
    /// A single-use nonce was requested a second time.
    NonceReused,
}

} // verus!
