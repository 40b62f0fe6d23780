use carbonite::domain::{SubscriberEmail, SubscriberName};

#[test]
fn a_256_grapheme_long_name_is_valid() {
    let name = "a".repeat(256);
    assert!(SubscriberName::parse(name).is_ok());
}

#[test]
fn a_name_longer_than_256_graphemes_is_rejected() {
    let name = "a".repeat(257);
    assert!(SubscriberName::parse(name).is_err());
}

#[test]
fn whitespace_only_name_is_rejected() {
    let name = " ".to_string();
    assert!(SubscriberName::parse(name).is_err());
}

#[test]
fn empty_email_is_rejected() {
    let email = "".to_string();
    assert!(SubscriberEmail::parse(email).is_err());
}

#[test]
fn email_without_at_symbol_is_rejected() {
    let email = "ursula.com".to_string();
    assert!(SubscriberEmail::parse(email).is_err());
}

#[test]
fn empty_name_is_rejected() {
    assert!(SubscriberName::parse(String::new()).is_err());
}

#[test]
fn names_with_forbidden_characters_are_rejected() {
    for c in ['/', '(', ')', '"', '<', '>'] {
        let name = format!("Ursula {} Le Guin", c);
        assert!(SubscriberName::parse(name).is_err());
    }
}

#[test]
fn a_valid_name_is_kept_unchanged() {
    let parsed = SubscriberName::parse("le guin".to_string()).unwrap();
    assert_eq!(parsed.as_ref(), "le guin");
}

#[test]
fn rejected_name_message_names_the_input() {
    let err = SubscriberName::parse("a/b".to_string()).unwrap_err();
    assert_eq!(err, "a/b is invalid name");
}

#[test]
fn name_with_surrounding_whitespace_is_accepted_as_is() {
    let parsed = SubscriberName::parse("  Ursula\t".to_string()).unwrap();
    assert_eq!(parsed.as_ref(), "  Ursula\t");
}

#[test]
fn unicode_whitespace_only_name_is_rejected() {
    assert!(SubscriberName::parse("\u{3000}\u{00a0}\n".to_string()).is_err());
}

#[test]
fn name_length_counts_graphemes_not_characters() {
    // "e" followed by a combining acute accent is one grapheme of two characters.
    let name = "e\u{301}".repeat(256);
    assert_eq!(name.chars().count(), 512);
    assert!(SubscriberName::parse(name).is_ok());
    let longer = "e\u{301}".repeat(257);
    assert!(SubscriberName::parse(longer).is_err());
}

#[test]
fn validate_counted_decides_on_the_given_count() {
    assert!(SubscriberName::validate_counted("Ursula", 256).is_ok());
    assert_eq!(
        SubscriberName::validate_counted("Ursula", 257),
        Err("Ursula is invalid name".to_string())
    );
    assert!(SubscriberName::validate_counted("   ", 3).is_err());
}

#[test]
fn a_valid_email_is_accepted_and_kept() {
    let parsed = SubscriberEmail::parse("ursula_le_guin@gmail.com".to_string()).unwrap();
    assert_eq!(parsed.as_ref(), "ursula_le_guin@gmail.com");
}

#[test]
fn invalid_email_message_names_the_input() {
    let err = SubscriberEmail::parse("definite-not-email".to_string()).unwrap_err();
    assert_eq!(err, "definite-not-email is invalid email");
}

#[test]
fn validate_verdict_follows_the_verdict() {
    assert_eq!(SubscriberEmail::validate_verdict("x", true), Ok(()));
    assert_eq!(
        SubscriberEmail::validate_verdict("x@y.z", false),
        Err("x@y.z is invalid email".to_string())
    );
}
