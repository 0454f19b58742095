use spotify_rs::pkce::encode_s256;
use spotify_rs::pkce::gen_s256_code_verifier;
use spotify_rs::pkce::generate_code_verifier;
use spotify_rs::pkce::verifier_text;

#[test]
fn test_code_verifier_gen() {
    let code = generate_code_verifier();
    let encoded = encode_s256(&code);
    assert_eq!(encoded.len(), 43);
}

#[test]
fn test_generate_code_verifier_correct_len() {
    let code = generate_code_verifier();
    assert_eq!(code.len(), 128);
}

#[test]
fn test_can_stringify_code_verifier() {
    let code = generate_code_verifier();
    assert!(String::from_utf8(code).is_ok());
}

#[test]
fn verifier_holds_unreserved_characters_only() {
    let allowed = b"~.-_ABCDEFGHIJKLMNOPQRSTUVWXYZabcdefghijklmnopqrstuvwxyz0123456789";
    for _ in 0..50 {
        let code = generate_code_verifier();
        assert_eq!(code.len(), 128);
        assert!(code.iter().all(|b| allowed.contains(b)));
    }
}

#[test]
fn verifiers_differ() {
    assert_ne!(generate_code_verifier(), generate_code_verifier());
}

#[test]
fn challenge_of_known_verifier() {
    let verifier = b"dBjftJeZ4CVP-mB92K27uhbUJU1p1r_wW1gFWFOEjXk".to_vec();
    assert_eq!(encode_s256(&verifier), "E9Melhoa2OwvFrEMTJguCHaoeK1t8URWbuGJSstw-cM");
}

#[test]
fn challenge_of_empty_input() {
    assert_eq!(encode_s256(&Vec::new()), "47DEQpj8HBSa-_TImW-5JCeuQeRkm5NMpJWZG3hSuFU");
}

#[test]
fn challenge_is_url_safe_text() {
    for _ in 0..50 {
        let challenge = gen_s256_code_verifier();
        assert_eq!(challenge.len(), 43);
        assert!(challenge.chars().all(|c| c.is_ascii_alphanumeric() || c == '-' || c == '_'));
    }
}

#[test]
fn verifier_text_keeps_the_characters() {
    let code = generate_code_verifier();
    let text = verifier_text(code.clone()).unwrap();
    assert_eq!(text.as_bytes(), code.as_slice());
}

#[test]
fn verifier_text_refuses_invalid_utf8() {
    assert_eq!(verifier_text(vec![0xff, 0xfe]), None);
    assert_eq!(verifier_text(vec![0xc3, 0xa9]), Some(String::from("\u{e9}")));
}
