use rustclipsync::security::{bearer_value, calculate_bytes_hash, hex_text};

#[test]
fn bytes_hash_is_stable() {
    assert_eq!(
        calculate_bytes_hash(b"hello"),
        calculate_bytes_hash(b"hello")
    );
    assert_ne!(
        calculate_bytes_hash(b"hello"),
        calculate_bytes_hash(b"world")
    );
}

#[test]
fn bytes_hash_is_sha256_in_lower_case_hex() {
    assert_eq!(
        calculate_bytes_hash(b"hello"),
        "2cf24dba5fb0a30e26e83b2ac5b9e29e1b161e5c1fa7425e73043362938b9824"
    );
    assert_eq!(
        calculate_bytes_hash(b""),
        "e3b0c44298fc1c149afbf4c8996fb92427ae41e4649b934ca495991b7852b855"
    );
}

#[test]
fn hex_has_two_digits_for_every_byte() {
    assert_eq!(hex_text(&[0x00, 0x0f, 0xa5, 0xff]), "000fa5ff");
    assert_eq!(hex_text(&[]), "");
}

#[test]
fn hex_tells_bytes_apart() {
    assert_ne!(hex_text(&[0x12, 0x34]), hex_text(&[0x12, 0x43]));
}

#[test]
fn bearer_value_names_the_scheme() {
    assert_eq!(bearer_value("secret"), "Bearer secret");
}
