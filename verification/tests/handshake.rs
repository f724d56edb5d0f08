use fastwebsockets::handshake::{accept_key, generate_key};

#[test]
fn accept_key_matches_the_rfc_example() {
    assert_eq!(
        accept_key("dGhlIHNhbXBsZSBub25jZQ=="),
        "s3pPLMBiTxaQ9kYGzzhZRbK+xOo="
    );
}

#[test]
fn accept_key_depends_on_the_key() {
    let a = accept_key("dGhlIHNhbXBsZSBub25jZQ==");
    let b = accept_key("AAAAAAAAAAAAAAAAAAAAAA==");
    assert_ne!(a, b);
}

#[test]
fn generated_keys_encode_sixteen_bytes() {
    let key = generate_key();
    assert_eq!(key.len(), 24);
    assert!(key.ends_with("=="));
}

#[test]
fn generated_keys_differ() {
    let a = generate_key();
    let b = generate_key();
    assert_ne!(a, b);
}
