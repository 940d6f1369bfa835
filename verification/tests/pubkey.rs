use zk_payroll::pubkey::validate_stellar_pubkey;
use zk_payroll::pubkey::PubkeyError;

// Build a syntactically valid 56-char Stellar G-address for use in tests.
fn valid_key() -> String {
    format!("G{}", "A".repeat(55))
}

#[test]
fn valid_pubkey_passes_validation() {
    assert!(validate_stellar_pubkey(&valid_key()).is_ok());
}

#[test]
fn wrong_prefix_is_rejected() {
    // Same length as a real key but starts with 'S' (Stellar secret key prefix).
    let bad = format!("S{}", "A".repeat(55));
    assert!(
        validate_stellar_pubkey(&bad).is_err(),
        "S-prefix must be rejected"
    );
}

#[test]
fn wrong_length_is_rejected() {
    assert!(
        validate_stellar_pubkey("GABC").is_err(),
        "short key must be rejected"
    );
    assert!(
        validate_stellar_pubkey(&format!("G{}", "A".repeat(60))).is_err(),
        "long key (61 chars) must be rejected"
    );
}

#[test]
fn invalid_chars_are_rejected() {
    // Replace a character deep in the key with '!' (not in StrKey alphabet).
    let base = valid_key();
    let mut chars: Vec<char> = base.chars().collect();
    chars[20] = '!';
    let bad_key: String = chars.into_iter().collect();
    assert!(
        validate_stellar_pubkey(&bad_key).is_err(),
        "invalid char must be rejected"
    );
}

#[test]
fn each_rejection_names_its_reason() {
    assert_eq!(validate_stellar_pubkey(""), Err(PubkeyError::BadShape));
    assert_eq!(validate_stellar_pubkey("GABC"), Err(PubkeyError::BadShape));
    let secret = format!("S{}", "A".repeat(55));
    assert_eq!(validate_stellar_pubkey(&secret), Err(PubkeyError::BadShape));
    let lower = format!("G{}", "a".repeat(55));
    assert_eq!(validate_stellar_pubkey(&lower), Err(PubkeyError::BadCharacter));
    let digits = format!("G{}", "1".repeat(55));
    assert_eq!(validate_stellar_pubkey(&digits), Err(PubkeyError::BadCharacter));
    let allowed = format!("G{}", "234567".repeat(9)) + "Z";
    assert_eq!(validate_stellar_pubkey(&allowed), Ok(()));
    // 56 bytes, but fewer characters: the two-byte letter is outside the alphabet.
    let wide = format!("G{}é", "A".repeat(53));
    assert_eq!(wide.len(), 56);
    assert_eq!(validate_stellar_pubkey(&wide), Err(PubkeyError::BadCharacter));
    // 56 characters, but more bytes.
    let long = format!("G{}é", "A".repeat(54));
    assert_eq!(long.chars().count(), 56);
    assert_eq!(validate_stellar_pubkey(&long), Err(PubkeyError::BadShape));
}
