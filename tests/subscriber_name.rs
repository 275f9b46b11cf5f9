use subscriber_domain::domain::subscriber_name::{
    contains_forbidden_characters, is_empty_or_whitespace, is_forbidden_character,
    satisfies_name_rules, MAX_GRAPHEMES,
};
use subscriber_domain::domain::SubscriberName;

#[test]
fn valid_name_parsed_successfully() {
    let name = "Ursula Le Guin".to_string();
    assert!(SubscriberName::parse(name).is_ok());
}

#[test]
fn a_256_grapheme_long_name_is_valid() {
    let name = "ё".repeat(256);
    assert!(SubscriberName::parse(name).is_ok());
}

#[test]
fn a_name_longer_than_256_graphemes_is_rejected() {
    let name = "ё".repeat(257);
    assert!(SubscriberName::parse(name).is_err());
}

#[test]
fn whitespace_only_names_are_rejected() {
    let name = " ".to_string();
    assert!(SubscriberName::parse(name).is_err());
}

#[test]
fn empty_string_is_rejected() {
    let name = "".to_string();
    assert!(SubscriberName::parse(name).is_err());
}

#[test]
fn names_containing_an_invalid_character_are_rejected() {
    for name in &['/', '(', ')', '"', '<', '>', '\\', '{', '}'] {
        let name = name.to_string();
        assert!(SubscriberName::parse(name).is_err());
    }
}

#[test]
fn accepted_name_keeps_its_text() {
    let parsed = SubscriberName::parse("Ursula Le Guin".to_string()).unwrap();
    assert_eq!(parsed.as_str(), "Ursula Le Guin");
    assert_eq!(parsed.as_ref(), "Ursula Le Guin");
}

#[test]
fn surrounding_whitespace_is_kept_not_trimmed() {
    let parsed = SubscriberName::parse("  Ursula \t".to_string()).unwrap();
    assert_eq!(parsed.as_str(), "  Ursula \t");
}

#[test]
fn rejection_message_echoes_the_input() {
    let err = SubscriberName::parse("<b>".to_string()).unwrap_err();
    assert_eq!(err, "<b> is not a valid subscriber name");
    let err = SubscriberName::parse("".to_string()).unwrap_err();
    assert_eq!(err, " is not a valid subscriber name");
}

#[test]
fn other_whitespace_alone_is_rejected() {
    for name in ["\t", "\n\r", " \u{3000} ", "\u{a0}\u{2028}"] {
        assert!(SubscriberName::parse(name.to_string()).is_err());
        assert!(is_empty_or_whitespace(name));
    }
    assert!(!is_empty_or_whitespace(" x "));
    assert!(is_empty_or_whitespace(""));
}

#[test]
fn a_forbidden_character_inside_a_valid_name_is_rejected() {
    assert!(SubscriberName::parse("Ursula (Le Guin)".to_string()).is_err());
    assert!(SubscriberName::parse("a/b".to_string()).is_err());
    assert!(contains_forbidden_characters("Ursula }"));
    assert!(!contains_forbidden_characters("Ursula Le Guin"));
    assert!(is_forbidden_character('\\'));
    assert!(!is_forbidden_character('['));
}

#[test]
fn graphemes_not_code_points_are_counted() {
    // "e" followed by a combining acute accent: two code points, one grapheme.
    let name = "e\u{301}".repeat(256);
    assert_eq!(name.chars().count(), 512);
    assert!(SubscriberName::parse(name).is_ok());
    let name = "e\u{301}".repeat(257);
    assert!(SubscriberName::parse(name).is_err());
}

#[test]
fn length_bound_in_plain_letters() {
    assert!(SubscriberName::parse("a".repeat(256)).is_ok());
    assert!(SubscriberName::parse("a".repeat(257)).is_err());
    assert_eq!(MAX_GRAPHEMES, 256);
}

#[test]
fn name_rules_given_a_grapheme_count() {
    assert!(satisfies_name_rules("Ursula", 6));
    assert!(satisfies_name_rules("Ursula", 256));
    assert!(!satisfies_name_rules("Ursula", 257));
    assert!(!satisfies_name_rules("   ", 3));
    assert!(!satisfies_name_rules("a>b", 3));
}

#[test]
fn revalidating_a_validated_name_gives_an_equal_name() {
    let first = SubscriberName::parse("Ursula Le Guin".to_string()).unwrap();
    let second = SubscriberName::parse(first.as_str().to_string()).unwrap();
    assert_eq!(first.as_str(), second.as_str());
    assert!(first == second);
    let other = SubscriberName::parse("Ursula".to_string()).unwrap();
    assert!(first != other);
}

#[test]
fn validation_is_deterministic() {
    for name in ["Ursula Le Guin", " ", "{x}", ""] {
        let a = SubscriberName::parse(name.to_string());
        let b = SubscriberName::parse(name.to_string());
        assert_eq!(a.is_ok(), b.is_ok());
        match (a, b) {
            (Ok(x), Ok(y)) => assert_eq!(x.as_str(), y.as_str()),
            (Err(x), Err(y)) => assert_eq!(x, y),
            _ => panic!("outcomes differ"),
        }
    }
}
