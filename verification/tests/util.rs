use appservice_delta::util::addr_to_localpart;

#[test]
fn at_signs_are_spelled_out() {
    assert_eq!(addr_to_localpart("bob@example.org"), "bob_at_example.org");
    assert_eq!(addr_to_localpart("a@@b"), "a_at__at_b");
    assert_eq!(addr_to_localpart(""), "");
    assert_eq!(addr_to_localpart("nobody"), "nobody");
}

#[test]
fn addresses_become_lower_case() {
    assert_eq!(addr_to_localpart("Alice.B@Example.ORG"), "alice.b_at_example.org");
    assert_eq!(addr_to_localpart("ÄRGER@X"), "ärger_at_x");
    assert_eq!(addr_to_localpart("ΟΔΟΣ"), "οδος");
}

#[test]
fn localparts_of_ascii_addresses_are_plain() {
    let localpart = addr_to_localpart("A@B@C");
    assert!(!localpart.contains('@'));
    assert!(!localpart.chars().any(|c| c.is_ascii_uppercase()));
    // Two addresses may share a localpart.
    assert_eq!(addr_to_localpart("a_at_b"), addr_to_localpart("a@b"));
}

#[test]
fn localpart_of_a_localpart_is_itself() {
    for addr in ["Alice.B@Example.ORG", "A@B@C", "", "plain", "ΟΔΟΣ@ΣΑΣ", "İX@ẞ", "ᾈ@ǅ"] {
        let localpart = addr_to_localpart(addr);
        assert_eq!(addr_to_localpart(&localpart), localpart);
    }
}

#[test]
fn every_character_becomes_plain_once_and_for_all() {
    for c in '\0'..=char::MAX {
        let localpart = addr_to_localpart(&c.to_string());
        assert!(!localpart.contains('@'), "{}", c);
        assert!(!localpart.chars().any(|c| c.is_ascii_uppercase()), "{}", c);
        assert_eq!(addr_to_localpart(&localpart), localpart);
    }
}

#[test]
fn localparts_of_ascii_texts_join() {
    for (a, b) in [("Bob", "@Example.ORG"), ("A@", "@B"), ("", "X@y"), ("_at", "_@")] {
        let joined = format!("{}{}", a, b);
        assert_eq!(addr_to_localpart(&joined), format!("{}{}", addr_to_localpart(a), addr_to_localpart(b)));
    }
    // Beyond ASCII a letter may depend on what stands behind it.
    assert_eq!(addr_to_localpart("ΑΣ"), "ας");
    assert_eq!(addr_to_localpart("ΑΣΑ"), "ασα");
}
