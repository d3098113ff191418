use zero2prod::{NewSubscriber, SubscribeFormData, SubscriberEmail, SubscriberName};

#[test]
fn a_256_grapheme_long_name_is_valid() {
    let name = "ё".repeat(256);
    assert!(SubscriberName::parse(name).is_ok());
}

#[test]
fn a_name_longer_than_256_graphemes_is_rejected() {
    let name = "a".repeat(257);
    assert!(SubscriberName::parse(name).is_err());
}

#[test]
fn whitespace_only_names_are_rejected() {
    assert!(SubscriberName::parse(" \t ".to_string()).is_err());
}

#[test]
fn empty_name_is_rejected() {
    assert!(SubscriberName::parse(String::new()).is_err());
}

#[test]
fn names_containing_a_forbidden_character_are_rejected() {
    for c in ['/', '(', ')', '"', '<', '>', '\\', '{', '}'] {
        let name = format!("le{}guin", c);
        assert!(SubscriberName::parse(name).is_err());
    }
}

#[test]
fn a_valid_name_is_kept_as_given() {
    let name = SubscriberName::parse(" Ursula Le Guin ".to_string()).unwrap();
    assert_eq!(name.as_str(), " Ursula Le Guin ");
}

#[test]
fn a_combining_sequence_counts_as_one_grapheme() {
    let name = "e\u{301}".repeat(256);
    assert!(SubscriberName::parse(name).is_ok());
}

#[test]
fn a_rejected_name_is_named_in_the_error() {
    let err = SubscriberName::parse("a/b".to_string()).unwrap_err();
    assert_eq!(err, "a/b is not a valid subscriber name.");
}

#[test]
fn a_valid_email_is_parsed_successfully() {
    let email = SubscriberEmail::parse("ursula_le_guin@gmail.com".to_string()).unwrap();
    assert_eq!(email.as_str(), "ursula_le_guin@gmail.com");
}

#[test]
fn email_missing_at_symbol_is_rejected() {
    assert!(SubscriberEmail::parse("ursuladomain.com".to_string()).is_err());
}

#[test]
fn email_missing_subject_is_rejected() {
    assert!(SubscriberEmail::parse("@domain.com".to_string()).is_err());
}

#[test]
fn empty_email_is_rejected() {
    let err = SubscriberEmail::parse(String::new()).unwrap_err();
    assert_eq!(err, " is not a valid subscriber email.");
}

#[test]
fn a_valid_form_gives_a_new_subscriber() {
    let form = SubscribeFormData {
        email: "ursula_le_guin@gmail.com".to_string(),
        name: "le guin".to_string(),
    };
    let s = NewSubscriber::try_from_form(form).unwrap();
    assert_eq!(s.name.as_str(), "le guin");
    assert_eq!(s.email.as_str(), "ursula_le_guin@gmail.com");
}

#[test]
fn a_form_with_a_bad_name_reports_the_name() {
    let form = SubscribeFormData {
        email: "not-an-email".to_string(),
        name: "".to_string(),
    };
    let err = NewSubscriber::try_from_form(form).unwrap_err();
    assert_eq!(err, " is not a valid subscriber name.");
}

#[test]
fn a_form_with_a_bad_email_reports_the_email() {
    let form = SubscribeFormData {
        email: "not-an-email".to_string(),
        name: "le guin".to_string(),
    };
    let err = NewSubscriber::try_from_form(form).unwrap_err();
    assert_eq!(err, "not-an-email is not a valid subscriber email.");
}
