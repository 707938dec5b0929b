use shielded::OneNonceSequence;
use shielded::ShieldError;
use shielded::Shielded;
use shielded::prekey_to_key;
use shielded::NONCE_LEN;
use shielded::PREKEY_LEN;
use shielded::TAG_LEN;

fn hex(bytes: &[u8]) -> String {
    let mut s = String::new();
    for b in bytes {
        s.push_str(&format!("{:02x}", b));
    }
    s
}

#[test]
fn round_trip_hello() {
    let c = Shielded::new(b"hello".to_vec());
    assert_eq!(c.memory_bytes().len(), 5 + TAG_LEN);
    let first_ct = c.memory_bytes().to_vec();
    assert_ne!(&first_ct[..5], &b"hello"[..]);
    let v = c.unshield().unwrap();
    assert_eq!(v.as_plaintext(), &b"hello"[..]);
    assert_eq!(v.plaintext_len(), 5);
    let c = v.reshield();
    assert_eq!(c.memory_bytes().len(), 5 + TAG_LEN);
    assert_ne!(c.memory_bytes(), &first_ct[..]);
    let v = c.unshield().unwrap();
    assert_eq!(v.as_plaintext(), &b"hello"[..]);
}

#[test]
fn round_trip_empty() {
    let c = Shielded::new(Vec::new());
    assert_eq!(c.memory_bytes().len(), TAG_LEN);
    let v = c.unshield().unwrap();
    assert_eq!(v.as_plaintext(), &b""[..]);
    assert_eq!(v.plaintext_len(), 0);
    let c = v.reshield();
    let v = c.unshield().unwrap();
    assert_eq!(v.as_plaintext(), &b""[..]);
}

#[test]
fn round_trip_larger_than_prekey() {
    let buf: Vec<u8> = (0..PREKEY_LEN + 4000).map(|i| (i % 251) as u8).collect();
    let c = Shielded::new(buf.clone());
    assert_eq!(c.memory_bytes().len(), buf.len() + TAG_LEN);
    let v = c.unshield().unwrap();
    assert_eq!(v.as_plaintext(), &buf[..]);
    let c = v.reshield();
    let v = c.unshield().unwrap();
    assert_eq!(v.as_plaintext(), &buf[..]);
}

#[test]
fn reseal_changes_key_material() {
    let mut c = Shielded::new(b"key material trial".to_vec());
    for _ in 0..5 {
        let prekey_before = c.prekey_bytes().to_vec();
        let nonce_before = c.nonce_bytes().to_vec();
        let v = c.unshield().unwrap();
        c = v.reshield();
        assert_ne!(c.prekey_bytes(), &prekey_before[..]);
        assert_ne!(c.nonce_bytes(), &nonce_before[..]);
    }
}

#[test]
fn reseal_changes_ciphertext() {
    let mut c = Shielded::new(b"a fixed plaintext".to_vec());
    let mut previous = c.memory_bytes().to_vec();
    for _ in 0..3 {
        let v = c.unshield().unwrap();
        assert_eq!(v.as_plaintext(), &b"a fixed plaintext"[..]);
        c = v.reshield();
        assert_ne!(c.memory_bytes(), &previous[..]);
        previous = c.memory_bytes().to_vec();
    }
}

#[test]
fn tamper_ciphertext_and_tag_detected() {
    let c = Shielded::new(b"hello".to_vec());
    let prekey = c.prekey_bytes().to_vec();
    let nonce = c.nonce_bytes().to_vec();
    let memory = c.memory_bytes().to_vec();
    for byte in 0..memory.len() {
        for bit in 0..8 {
            let mut tampered = memory.clone();
            tampered[byte] ^= 1u8 << bit;
            let c2 = Shielded::from_parts(prekey.clone(), nonce.clone(), tampered).unwrap();
            let r = c2.unshield();
            assert!(matches!(r, Err(ShieldError::Integrity)));
        }
    }
    let intact = Shielded::from_parts(prekey, nonce, memory).unwrap();
    let v = intact.unshield().unwrap();
    assert_eq!(v.as_plaintext(), &b"hello"[..]);
}

#[test]
fn tamper_prekey_detected() {
    let c = Shielded::new(b"hello".to_vec());
    let prekey = c.prekey_bytes().to_vec();
    let nonce = c.nonce_bytes().to_vec();
    let memory = c.memory_bytes().to_vec();
    let mut targets: Vec<(usize, u8)> = Vec::new();
    for bit in 0..8 {
        targets.push((0, bit));
        targets.push((PREKEY_LEN - 1, bit));
    }
    for byte in (0..PREKEY_LEN).step_by(64) {
        targets.push((byte, (byte % 8) as u8));
    }
    for (byte, bit) in targets {
        let mut tampered = prekey.clone();
        tampered[byte] ^= 1u8 << bit;
        let c2 = Shielded::from_parts(tampered, nonce.clone(), memory.clone()).unwrap();
        let r = c2.unshield();
        assert!(matches!(r, Err(ShieldError::Integrity)));
    }
}

#[test]
fn fixed_lengths_across_reseals() {
    for len in [0usize, 1, 5, PREKEY_LEN, PREKEY_LEN + 4000] {
        let buf: Vec<u8> = vec![0xA5; len];
        let mut c = Shielded::new(buf);
        assert_eq!(c.prekey_bytes().len(), PREKEY_LEN);
        assert_eq!(c.nonce_bytes().len(), NONCE_LEN);
        for _ in 0..2 {
            let v = c.unshield().unwrap();
            c = v.reshield();
            assert_eq!(c.prekey_bytes().len(), PREKEY_LEN);
            assert_eq!(c.nonce_bytes().len(), NONCE_LEN);
            assert_eq!(c.memory_bytes().len(), len + TAG_LEN);
        }
    }
}

#[test]
fn nonce_sequence_yields_exactly_once() {
    let nonce: Vec<u8> = (0..NONCE_LEN as u8).collect();
    let mut seq = OneNonceSequence::new(nonce.clone());
    let first = seq.advance();
    assert_eq!(first.unwrap(), nonce);
    let second = seq.advance();
    assert_eq!(second.unwrap_err(), ShieldError::NonceReused);
    let third = seq.advance();
    assert_eq!(third.unwrap_err(), ShieldError::NonceReused);
}

#[test]
fn derive_key_known_answers() {
    let key = prekey_to_key(b"");
    assert_eq!(
        hex(&key),
        "cf83e1357eefb8bdf1542850d66d8007d620e4050b5715dc83f4a921d36ce9ce"
    );
    let key = prekey_to_key(b"abc");
    assert_eq!(
        hex(&key),
        "ddaf35a193617abacc417349ae20413112e6fa4e89a97ea20a9eeee64b55d39a"
    );
}

#[test]
fn derive_key_is_deterministic_and_not_a_prefix() {
    let prekey: Vec<u8> = (0..PREKEY_LEN).map(|i| (i % 256) as u8).collect();
    let k1 = prekey_to_key(&prekey);
    let k2 = prekey_to_key(&prekey);
    assert_eq!(k1, k2);
    assert_eq!(k1.len(), 32);
    assert_ne!(&k1[..], &prekey[..32]);
}

#[test]
fn from_parts_rejects_bad_lengths() {
    let c = Shielded::new(b"hello".to_vec());
    let prekey = c.prekey_bytes().to_vec();
    let nonce = c.nonce_bytes().to_vec();
    let memory = c.memory_bytes().to_vec();
    assert!(Shielded::from_parts(vec![0u8; PREKEY_LEN - 1], nonce.clone(), memory.clone()).is_none());
    assert!(Shielded::from_parts(prekey.clone(), vec![0u8; NONCE_LEN + 1], memory.clone()).is_none());
    assert!(Shielded::from_parts(prekey, nonce, memory).is_some());
}
