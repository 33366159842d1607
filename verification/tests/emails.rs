use zero2prod::domain::subscriber_email::{
    find_at_sign, is_alnum_char, is_local_part_char, is_valid_domain, is_valid_email,
    is_valid_local_part,
};
use zero2prod::domain::SubscriberEmail;

fn accepts(s: &str) -> bool {
    let by_chars = is_valid_email(&s.chars().collect());
    let parsed = SubscriberEmail::parse(s.to_string());
    assert_eq!(by_chars, parsed.is_ok(), "{:?}", s);
    if let Ok(email) = &parsed {
        assert_eq!(email.as_ref(), s);
    }
    by_chars
}

#[test]
fn a_plain_address_is_valid() {
    assert!(accepts("user@example.com"));
    assert!(accepts("andrew.gristey@gmail.com"));
    assert!(accepts("ursela_le_guin@gmail.com"));
    assert!(accepts("a@b.c"));
    assert!(accepts("first+tag@sub-domain.example.co.uk"));
    assert!(accepts("UPPER.lower-09@Example.COM"));
    assert!(accepts("o'neil!#$%&*/=?^`{|}~@x1.y2"));
}

#[test]
fn the_empty_text_is_no_address() {
    assert!(!accepts(""));
}

#[test]
fn an_address_needs_an_at_sign() {
    assert!(!accepts("userexample.com"));
    assert!(!accepts("ursela_le_guin"));
    assert!(!accepts("not-an-email"));
    assert!(!accepts("example.com"));
}

#[test]
fn an_address_needs_a_dot_in_its_domain() {
    assert!(!accepts("user@example"));
    assert!(!accepts("first.last@localhost"));
    assert!(!accepts("user@"));
}

#[test]
fn an_address_has_one_at_sign_only() {
    assert!(!accepts("a@b@c.com"));
    assert!(!accepts("a@@c.com"));
    assert!(!accepts("@a@c.com"));
}

#[test]
fn an_address_needs_a_local_part() {
    assert!(!accepts("@example.com"));
    assert!(!accepts("@"));
}

#[test]
fn a_local_part_holds_no_other_characters() {
    assert!(!accepts("us er@example.com"));
    assert!(!accepts("us(er@example.com"));
    assert!(!accepts("usér@example.com"));
    assert!(!accepts("\"user\"@example.com"));
    assert!(!accepts(" user@example.com"));
}

#[test]
fn domain_labels_are_not_empty() {
    assert!(!accepts("user@.com"));
    assert!(!accepts("user@example."));
    assert!(!accepts("user@exa..mple.com"));
    assert!(!accepts("user@."));
}

#[test]
fn domain_labels_neither_start_nor_end_with_a_hyphen() {
    assert!(!accepts("user@-example.com"));
    assert!(!accepts("user@example.com-"));
    assert!(!accepts("user@example-.com"));
    assert!(!accepts("user@example.-com"));
    assert!(accepts("user@ex--ample.com"));
}

#[test]
fn a_domain_holds_no_other_characters() {
    assert!(!accepts("user@exam ple.com"));
    assert!(!accepts("user@exam_ple.com"));
    assert!(!accepts("user@example.com "));
    assert!(!accepts("user@exämple.com"));
}

#[test]
fn a_rejected_address_gives_the_email_message() {
    let err = match SubscriberEmail::parse("nobody".to_string()) {
        Ok(_) => panic!("accepted"),
        Err(e) => e,
    };
    assert_eq!(err, "invalid subscriber email");
}

#[test]
fn a_valid_address_passes_validation_again() {
    let email = SubscriberEmail::parse("user@example.com".to_string()).unwrap();
    let again = SubscriberEmail::parse(email.as_ref().to_string()).unwrap();
    assert_eq!(again.as_ref(), "user@example.com");
}

#[test]
fn the_parts_of_the_grammar() {
    let chars: Vec<char> = "ab@c.d".chars().collect();
    assert_eq!(find_at_sign(&chars), Some(2));
    assert_eq!(find_at_sign(&"a@b@c".chars().collect()), Some(1));
    assert_eq!(find_at_sign(&"abc".chars().collect()), None);
    assert_eq!(find_at_sign(&vec![]), None);
    assert!(is_valid_local_part(&chars, 2));
    assert!(!is_valid_local_part(&chars, 0));
    assert!(!is_valid_local_part(&chars, 3));
    assert!(is_valid_domain(&chars, 3));
    assert!(!is_valid_domain(&chars, 4));
    assert!(!is_valid_domain(&chars, 6));
    assert!(is_alnum_char('a') && is_alnum_char('z') && is_alnum_char('A') && is_alnum_char('Z'));
    assert!(is_alnum_char('0') && is_alnum_char('9'));
    assert!(!is_alnum_char('-') && !is_alnum_char('é') && !is_alnum_char('`') && !is_alnum_char('['));
    assert!(is_local_part_char('.') && is_local_part_char('~') && is_local_part_char('q'));
    assert!(!is_local_part_char('@') && !is_local_part_char(' ') && !is_local_part_char('"'));
}
