use krypty::chacha::{quarter_round, ChaChaBuilder, ChaChaFamilyAlgorithms};
use krypty::errors::KryptyErrors;
use krypty::key::SymmetricKey;

fn words_to_bytes(words: &[u32]) -> Vec<u8> {
    let mut out = Vec::new();
    for w in words {
        out.extend_from_slice(&w.to_le_bytes());
    }
    out
}

#[test]
fn test_quarter_round() {
    let mut state: Vec<u32> = vec![0x11111111, 0x01020304, 0x9b8d6f43, 0x01234567];
    quarter_round(&mut state, 0, 1, 2, 3);
    assert_eq!(state, vec![0xea2a92f4, 0xcb1cf8ce, 0x4581472e, 0x5881c4bb]);
}

#[test]
fn test_round_trip() {
    let key_bytes: Vec<u8> = (0u8..32).collect();
    let nonce: u64 = 0x0123456789abcdef;
    let message: Vec<u8> = (0u8..150).map(|b| b.wrapping_mul(37)).collect();

    let mut enc = ChaChaBuilder::build(
        ChaChaFamilyAlgorithms::ChaCha12,
        SymmetricKey::new(key_bytes.clone()),
        nonce,
    )
    .unwrap();
    let ciphertext = enc.encrypt(&message);
    assert_ne!(ciphertext, message);

    let mut dec = ChaChaBuilder::build(
        ChaChaFamilyAlgorithms::ChaCha12,
        SymmetricKey::new(key_bytes),
        nonce,
    )
    .unwrap();
    let plaintext = dec.decrypt(&ciphertext);
    assert_eq!(plaintext, message);
}

#[test]
fn test_determinism() {
    let key_bytes: Vec<u8> = (0u8..32).map(|b| b.wrapping_mul(11)).collect();
    let nonce: u64 = 42;
    let message = b"the same message, twice";

    let mut c1 = ChaChaBuilder::build(
        ChaChaFamilyAlgorithms::ChaCha8,
        SymmetricKey::new(key_bytes.clone()),
        nonce,
    )
    .unwrap();
    let mut c2 = ChaChaBuilder::build(
        ChaChaFamilyAlgorithms::ChaCha8,
        SymmetricKey::new(key_bytes),
        nonce,
    )
    .unwrap();
    assert_eq!(c1.encrypt(message), c2.encrypt(message));
}

#[test]
fn test_key_size_gate() {
    assert!(matches!(
        ChaChaBuilder::build(
            ChaChaFamilyAlgorithms::ChaCha20,
            SymmetricKey::new(vec![0u8; 31]),
            0,
        ),
        Err(KryptyErrors::InvalidKeySize)
    ));
    assert!(matches!(
        ChaChaBuilder::build(
            ChaChaFamilyAlgorithms::ChaCha20,
            SymmetricKey::new(vec![0u8; 33]),
            0,
        ),
        Err(KryptyErrors::InvalidKeySize)
    ));
    assert!(
        ChaChaBuilder::build(
            ChaChaFamilyAlgorithms::ChaCha20,
            SymmetricKey::new(vec![0u8; 32]),
            0,
        )
        .is_ok()
    );
}

#[test]
fn test_keystream_blocks_differ() {
    let mut core = ChaChaBuilder::build(
        ChaChaFamilyAlgorithms::ChaCha20,
        SymmetricKey::new(vec![0u8; 32]),
        0,
    )
    .unwrap();
    let b0 = core.get_stream();
    let b1 = core.get_stream();
    let b2 = core.get_stream();
    assert_ne!(b0, b1);
    assert_ne!(b1, b2);
    assert_ne!(b0, b2);
}

#[test]
fn test_hello_crypto_scenario() {
    let message = b"Hello Crypto";

    let mut enc = ChaChaBuilder::build(
        ChaChaFamilyAlgorithms::ChaCha20,
        SymmetricKey::new(vec![0u8; 32]),
        0,
    )
    .unwrap();
    let ciphertext = enc.encrypt(message);

    let mut ks_core = ChaChaBuilder::build(
        ChaChaFamilyAlgorithms::ChaCha20,
        SymmetricKey::new(vec![0u8; 32]),
        0,
    )
    .unwrap();
    let keystream = words_to_bytes(&ks_core.get_stream());
    let expected: Vec<u8> = message
        .iter()
        .enumerate()
        .map(|(i, b)| b ^ keystream[i])
        .collect();
    assert_eq!(ciphertext, expected);

    let mut dec = ChaChaBuilder::build(
        ChaChaFamilyAlgorithms::ChaCha20,
        SymmetricKey::new(vec![0u8; 32]),
        0,
    )
    .unwrap();
    assert_eq!(dec.decrypt(&ciphertext), message);
}

#[test]
fn test_chunk_boundaries() {
    let key_bytes: Vec<u8> = (0u8..32).collect();
    let nonce: u64 = 7;
    let build = |_: ()| {
        ChaChaBuilder::build(
            ChaChaFamilyAlgorithms::ChaCha8,
            SymmetricKey::new(key_bytes.clone()),
            nonce,
        )
        .unwrap()
    };

    // Keystream blocks 0, 1 and 2 for this key and nonce.
    let mut ks_core = build(());
    let ks0 = words_to_bytes(&ks_core.get_stream());
    let ks1 = words_to_bytes(&ks_core.get_stream());
    let ks2 = words_to_bytes(&ks_core.get_stream());

    // A 64-byte message consumes exactly one block: the next bytes the
    // core enciphers use block 1.
    let m64 = [7u8; 64];
    let mut c = build(());
    let ct = c.encrypt(&m64);
    for i in 0..64 {
        assert_eq!(ct[i], 7u8 ^ ks0[i]);
    }
    let follow = c.encrypt(&[0u8; 32]);
    assert_eq!(follow, ks1[..32].to_vec());

    // A 65-byte message consumes exactly two blocks: the next bytes use
    // block 2.
    let m65 = [9u8; 65];
    let mut c = build(());
    let ct = c.encrypt(&m65);
    assert_eq!(ct[64], 9u8 ^ ks1[0]);
    let follow = c.encrypt(&[0u8; 16]);
    assert_eq!(follow, ks2[..16].to_vec());
}
