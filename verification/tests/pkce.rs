use lepro_core::pkce::{challenge_s256, generate_verifier, unreserved_at, verifier_from_indices};

#[test]
fn verifier_length_and_charset() {
    let v = generate_verifier();
    assert!((43..=128).contains(&v.len()));
    assert!(v.chars().all(|c| c.is_ascii_alphanumeric() || "-._~".contains(c)));
}

#[test]
fn challenge_is_known_s256() {
    let v = "dBjftJeZ4CVP-mB92K27uhbUJU1p1r_wW1gFWFOEjXk";
    assert_eq!(challenge_s256(v), "E9Melhoa2OwvFrEMTJguCHaoeK1t8URWbuGJSstw-cM");
}

#[test]
fn verifier_has_exactly_64_chars() {
    assert_eq!(generate_verifier().chars().count(), 64);
}

#[test]
fn challenge_of_empty_verifier() {
    // SHA-256 of the empty string, base64url without padding.
    let c = challenge_s256("");
    assert_eq!(c, "47DEQpj8HBSa-_TImW-5JCeuQeRkm5NMpJWZG3hSuFU");
    assert_eq!(c.len(), 43);
}

#[test]
fn unreserved_alphabet_order() {
    let all: String = (0..66).map(unreserved_at).collect();
    assert_eq!(all, "ABCDEFGHIJKLMNOPQRSTUVWXYZabcdefghijklmnopqrstuvwxyz0123456789-._~");
}

#[test]
fn verifier_spells_the_drawn_indices() {
    assert_eq!(verifier_from_indices(&vec![0, 25, 26, 51, 52, 61, 62, 63, 64, 65]), "AZaz09-._~");
    assert_eq!(verifier_from_indices(&vec![]), "");
}
