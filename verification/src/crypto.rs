//! The three cryptographic collaborators — secure random source, hash, and
//! authenticated cipher — reached through trusted declarations, together
//! with the verified key-schedule helpers built on them.

use vstd::prelude::*;
use vstd::slice::slice_subrange;
use vstd::slice::slice_to_vec;

use crate::KEY_LEN;
use crate::MAGIC_BYTE;
use crate::NONCE_LEN;
use crate::PREKEY_LEN;
use crate::TAG_LEN;

verus! {

/// The digest that SHA-512 produces for a given input; determined by the
/// input bytes alone.
pub uninterp spec fn sha512_bytes(input: Seq<u8>) -> Seq<u8>;

/// The ciphertext-plus-tag bytes that ChaCha20-Poly1305 produces for a given
/// key, nonce, associated data and plaintext; determined by those arguments
/// alone.
pub uninterp spec fn seal_bytes(
    key: Seq<u8>,
    nonce: Seq<u8>,
    aad: Seq<u8>,
    plaintext: Seq<u8>,
) -> Seq<u8>;

/// The cipher key that a prekey determines: its SHA-512 digest truncated to
/// the cipher's key length.
pub open spec fn derived_key_of(prekey: Seq<u8>) -> Seq<u8> {
    sha512_bytes(prekey).subrange(0, KEY_LEN as int)
}

/// Plaintext lengths the cipher accepts: the RFC 8439 bound on a single
/// ChaCha20-Poly1305 message, which ring enforces.
pub open spec fn fits_cipher(len: int) -> bool {
    len <= 274_877_906_880
}

#[verifier::external_type_specification]
#[verifier::external_body]
pub struct ExSystemRandom(ring::rand::SystemRandom);

/// Relies on `ring::rand::SystemRandom::new`: constructs a handle to the
/// system's secure random source.
#[verifier::external_body]
pub(crate) fn new_rng() -> ring::rand::SystemRandom {
    ring::rand::SystemRandom::new()
}

/// Relies on `ring::rand::SecureRandom::fill` for `SystemRandom`: overwrites
/// `dest` with bytes from the system's secure random source. A failure of
/// that source is unrecoverable and aborts the process; there is no silent
/// fallback to a weaker source.
#[verifier::external_body]
fn fill_random(rng: &ring::rand::SystemRandom, dest: &mut Vec<u8>)
    ensures
        final(dest)@.len() == old(dest)@.len(),
{
    ring::rand::SecureRandom::fill(rng, dest.as_mut_slice()).expect("secure random source");
}

/// Relies on `ring::digest::digest` with SHA-512: a deterministic 64-byte
/// digest of the input.
#[verifier::external_body]
fn sha512(data: &[u8]) -> (r: Vec<u8>)
    ensures
        r@ == sha512_bytes(data@),
        r@.len() == 64,
{
    ring::digest::digest(&ring::digest::SHA512, data).as_ref().to_vec()
}

/// Relies on ring's ChaCha20-Poly1305 `LessSafeKey::seal_in_place_append_tag`:
/// encrypts `data` in place under `key` and `nonce`, authenticating but not
/// encrypting `aad`, and appends the authentication tag. The result is
/// determined by key, nonce, associated data and plaintext alone. The length
/// bound below keeps the call from failing: ring refuses longer inputs.
#[verifier::external_body]
pub(crate) fn aead_seal(key: &[u8], nonce: &[u8], aad: &[u8], data: &mut Vec<u8>)
    requires
        key@.len() == KEY_LEN,
        nonce@.len() == NONCE_LEN,
        old(data)@.len() + TAG_LEN <= usize::MAX,
        fits_cipher(old(data)@.len() as int),
    ensures
        final(data)@ == seal_bytes(key@, nonce@, aad@, old(data)@),
        final(data)@.len() == old(data)@.len() + TAG_LEN,
{
    let unbound =
        ring::aead::UnboundKey::new(&ring::aead::CHACHA20_POLY1305, key).expect("cipher key");
    let sealing = ring::aead::LessSafeKey::new(unbound);
    let nonce = ring::aead::Nonce::try_assume_unique_for_key(nonce).expect("cipher nonce");
    sealing
        .seal_in_place_append_tag(nonce, ring::aead::Aad::from(aad), data)
        .expect("seal in place");
}

/// Relies on ring's ChaCha20-Poly1305 `LessSafeKey::open_in_place`: verifies
/// the authentication tag over the buffer and the associated data, and on
/// success decrypts in place, leaving the plaintext as the buffer's prefix
/// and returning its length. Opening succeeds on exactly the byte strings
/// that sealing under the same key, nonce and associated data produces, and
/// then recovers the plaintext that was sealed; on any other input it fails,
/// leaving the buffer's length unchanged and its contents unspecified.
#[verifier::external_body]
pub(crate) fn aead_open(key: &[u8], nonce: &[u8], aad: &[u8], data: &mut Vec<u8>) -> (r: Option<
    usize,
>)
    requires
        key@.len() == KEY_LEN,
        nonce@.len() == NONCE_LEN,
    ensures
        final(data)@.len() == old(data)@.len(),
        r is Some ==> r.unwrap() + TAG_LEN == old(data)@.len() && old(data)@ == seal_bytes(
            key@,
            nonce@,
            aad@,
            final(data)@.subrange(0, r.unwrap() as int),
        ),
        forall|p: Seq<u8>|
            p.len() + TAG_LEN == old(data)@.len() && old(data)@ == seal_bytes(key@, nonce@, aad@, p)
                ==> r is Some && final(data)@.subrange(0, p.len() as int) == p,
{
    let unbound =
        ring::aead::UnboundKey::new(&ring::aead::CHACHA20_POLY1305, key).expect("cipher key");
    let opening = ring::aead::LessSafeKey::new(unbound);
    let nonce = ring::aead::Nonce::try_assume_unique_for_key(nonce).expect("cipher nonce");
    match opening.open_in_place(nonce, ring::aead::Aad::from(aad), data.as_mut_slice()) {
        Ok(plaintext) => Some(plaintext.len()),
        Err(_) => None,
    }
}

/// Draws a fresh high-entropy prekey of `PREKEY_LEN` bytes from the secure
/// random source.
pub(crate) fn new_prekey(rng: &ring::rand::SystemRandom) -> (r: Vec<u8>)
    ensures
        r@.len() == PREKEY_LEN,
{
    let mut k: Vec<u8> = vec![MAGIC_BYTE; PREKEY_LEN];
    fill_random(rng, &mut k);
    k
}

/// Draws a fresh nonce of `NONCE_LEN` bytes from the secure random source.
pub(crate) fn new_nonce(rng: &ring::rand::SystemRandom) -> (r: Vec<u8>)
    ensures
        r@.len() == NONCE_LEN,
{
    let mut n: Vec<u8> = vec![MAGIC_BYTE; NONCE_LEN];
    fill_random(rng, &mut n);
    n
}

/// Derives the cipher key from a prekey: the SHA-512 digest of the whole
/// prekey, truncated to the cipher's key length. Deterministic, so the seal
/// and the matching open derive the same key from the same stored prekey; the
/// key is returned to the caller for the duration of one cipher call and
/// never stored.
pub fn prekey_to_key(prekey: &[u8]) -> (r: Vec<u8>)
    ensures
        r@ == derived_key_of(prekey@),
        r@.len() == KEY_LEN,
{
    let d = sha512(prekey);
    slice_to_vec(slice_subrange(d.as_slice(), 0, KEY_LEN))
}

} // verus!
