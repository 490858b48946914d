use krypty::errors::KryptyErrors;
use krypty::key::SymmetricKey;
use krypty::util::Rand;

#[test]
fn test_new_and_get_key() {
    let key = SymmetricKey::new(vec![1, 2, 3]);
    assert_eq!(key.get_key(), &vec![1, 2, 3]);
}

#[test]
fn test_key_from_hex() {
    let key = SymmetricKey::try_from("00ff10ab").unwrap();
    assert_eq!(key.get_key(), &vec![0x00, 0xff, 0x10, 0xab]);

    let mixed = SymmetricKey::try_from("AbCd").unwrap();
    assert_eq!(mixed.get_key(), &vec![0xab, 0xcd]);
}

#[test]
fn test_key_from_hex_invalid_character() {
    assert!(matches!(
        SymmetricKey::try_from("zz"),
        Err(KryptyErrors::HexParsing(_))
    ));
}

#[test]
fn test_key_from_hex_odd_length() {
    assert!(matches!(
        SymmetricKey::try_from("abc"),
        Err(KryptyErrors::HexParsing(_))
    ));
}

#[test]
fn test_generated_hex_key_decodes() {
    let raw = Rand::generate_hex(32);
    let key = SymmetricKey::try_from(raw.as_str()).unwrap();
    assert_eq!(key.get_key().len(), 32);
}
