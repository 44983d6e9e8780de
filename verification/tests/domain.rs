use zero2prod::domain::is_whitespace;
use zero2prod::domain::AddressError;
use zero2prod::domain::SubscriberEmail;

fn parse(s: &str) -> Result<SubscriberEmail, AddressError> {
    SubscriberEmail::parse(s.to_string())
}

fn defect(s: &str) -> Option<AddressError> {
    parse(s).err()
}

#[test]
fn ordinary_addresses_are_accepted() {
    for s in [
        "ursula_le_guin@gmail.com",
        "jane@example.com",
        "sam@example.com",
        "a@b",
        "first.last+tag@sub.domain.example",
    ] {
        assert!(parse(s).is_ok(), "{}", s);
    }
}

#[test]
fn an_accepted_address_is_kept_unchanged() {
    let email = parse("Ursula.LeGuin@Example.COM").unwrap();
    assert_eq!(email.as_str(), "Ursula.LeGuin@Example.COM");
    let through_trait: &str = email.as_ref();
    assert_eq!(through_trait, "Ursula.LeGuin@Example.COM");
}

#[test]
fn characters_outside_ascii_are_accepted() {
    let email = parse("jürgen@müller.example").unwrap();
    assert_eq!(email.as_str(), "jürgen@müller.example");
}

#[test]
fn a_clone_holds_the_same_address() {
    let email = parse("jane@example.com").unwrap();
    let copy = email.clone();
    assert_eq!(copy.as_str(), email.as_str());
}

#[test]
fn the_empty_string_is_rejected() {
    assert_eq!(defect(""), Some(AddressError::MissingAt));
}

#[test]
fn a_string_without_at_sign_is_rejected() {
    assert_eq!(defect("definitely-not-an-email"), Some(AddressError::MissingAt));
    assert_eq!(defect("ursuladomain.com"), Some(AddressError::MissingAt));
}

#[test]
fn a_second_at_sign_is_rejected() {
    assert_eq!(defect("a@b@c"), Some(AddressError::MultipleAt));
    assert_eq!(defect("@@"), Some(AddressError::MultipleAt));
    assert_eq!(defect("a@@b"), Some(AddressError::MultipleAt));
    assert_eq!(defect("@a@b@"), Some(AddressError::MultipleAt));
}

#[test]
fn an_empty_local_part_is_rejected() {
    assert_eq!(defect("@domain.com"), Some(AddressError::EmptyLocalPart));
}

#[test]
fn an_empty_domain_is_rejected() {
    assert_eq!(defect("ursula@"), Some(AddressError::EmptyDomain));
}

#[test]
fn a_lone_at_sign_has_an_empty_local_part() {
    assert_eq!(defect("@"), Some(AddressError::EmptyLocalPart));
}

#[test]
fn white_space_is_rejected_wherever_it_stands() {
    assert_eq!(defect(" jane@example.com"), Some(AddressError::Whitespace));
    assert_eq!(defect("jane@example.com "), Some(AddressError::Whitespace));
    assert_eq!(defect("ja ne@example.com"), Some(AddressError::Whitespace));
    assert_eq!(defect("jane@exam\tple.com"), Some(AddressError::Whitespace));
    assert_eq!(defect("jane@example.com\n"), Some(AddressError::Whitespace));
    assert_eq!(defect("jane\u{a0}@example.com"), Some(AddressError::Whitespace));
    assert_eq!(defect("jane@example\u{3000}.com"), Some(AddressError::Whitespace));
    assert_eq!(defect("jane\u{2028}@example.com"), Some(AddressError::Whitespace));
}

#[test]
fn white_space_is_reported_before_any_other_defect() {
    assert_eq!(defect(" "), Some(AddressError::Whitespace));
    assert_eq!(defect("no at sign"), Some(AddressError::Whitespace));
    assert_eq!(defect("a@b @c"), Some(AddressError::Whitespace));
    assert_eq!(defect("@ "), Some(AddressError::Whitespace));
    assert_eq!(defect(" @"), Some(AddressError::Whitespace));
}

#[test]
fn every_string_over_a_small_alphabet_is_judged_by_the_rule() {
    let alphabet = ['a', '@', ' ', '.'];
    let mut strings: Vec<String> = vec![String::new()];
    let mut longest: Vec<String> = vec![String::new()];
    for _ in 0..5 {
        let mut next = Vec::new();
        for s in &longest {
            for c in alphabet {
                let mut t = s.clone();
                t.push(c);
                next.push(t);
            }
        }
        strings.extend(next.iter().cloned());
        longest = next;
    }
    assert_eq!(strings.len(), 1 + 4 + 16 + 64 + 256 + 1024);
    for s in strings {
        let at_signs = s.chars().filter(|c| *c == '@').count();
        let expected = if s.contains(' ') {
            Some(AddressError::Whitespace)
        } else if at_signs == 0 {
            Some(AddressError::MissingAt)
        } else if at_signs > 1 {
            Some(AddressError::MultipleAt)
        } else if s.starts_with('@') {
            Some(AddressError::EmptyLocalPart)
        } else if s.ends_with('@') {
            Some(AddressError::EmptyDomain)
        } else {
            None
        };
        let parsed = SubscriberEmail::parse(s.clone());
        match &parsed {
            Ok(email) => assert_eq!(email.as_str(), s),
            Err(_) => {}
        }
        assert_eq!(parsed.err(), expected, "{:?}", s);
    }
}

#[test]
fn white_space_is_what_the_standard_library_calls_white_space() {
    for n in 0..=0x10ffffu32 {
        if let Some(c) = char::from_u32(n) {
            assert_eq!(is_whitespace(c), c.is_whitespace(), "U+{:04X}", n);
        }
    }
}

#[test]
fn the_debug_form_shows_the_address() {
    let email = parse("jane@example.com").unwrap();
    assert!(format!("{:?}", email).contains("jane@example.com"));
}
