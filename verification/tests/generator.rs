use krypty::generator::KeyGenerator;

#[test]
fn generator_test_generate_symmetric_key_256_bits() {
    let desired_bytes_size = 32;
    let output = KeyGenerator::generate_symmetric_key(desired_bytes_size);
    assert_eq!(output.len(), desired_bytes_size)
}
