use subscribers::domain::subscriber_name::{
    contains_forbidden_char, is_forbidden_char, name_is_acceptable, validate_name, MAX_GRAPHEMES,
};
use subscribers::domain::SubscriberName;

const FORBIDDEN: [char; 9] = ['/', '(', ')', '"', '<', '>', '\\', '{', '}'];

#[test]
fn a_256_grapheme_long_name_is_valid() {
    let name = "ë".repeat(256);
    assert!(SubscriberName::parse(name).is_ok());
}

#[test]
fn a_name_longer_than_256_graphemes_is_rejected() {
    let name = "ë".repeat(257);
    assert!(SubscriberName::parse(name).is_err());
}

#[test]
fn empty_name_is_rejected() {
    let name = "".to_string();
    assert!(SubscriberName::parse(name).is_err());
}

#[test]
fn whitespace_only_is_rejected() {
    let name = " ".to_string();
    assert!(SubscriberName::parse(name).is_err());
}

#[test]
fn a_name_with_invalid_char_is_rejected() {
    for char in ['/', '(', ')', '"', '<', '>', '\\', '{', '}'] {
        let name = char.to_string();
        assert!(SubscriberName::parse(name).is_err());
    }
}

#[test]
fn a_valid_name_is_valid() {
    let name = "Maurice Ponte".to_string();
    assert!(SubscriberName::parse(name).is_ok());
}

#[test]
fn a_valid_name_is_stored_as_given() {
    let name = SubscriberName::parse("Maurice Ponte".to_string()).unwrap();
    assert_eq!(name.as_ref(), "Maurice Ponte");
}

#[test]
fn a_valid_name_is_neither_trimmed_nor_recased() {
    let name = SubscriberName::parse("  maurice PONTE \t".to_string()).unwrap();
    assert_eq!(name.as_ref(), "  maurice PONTE \t");
}

#[test]
fn a_rejected_name_is_quoted_in_the_message() {
    let message = SubscriberName::parse("Maurice/Ponte".to_string()).unwrap_err();
    assert_eq!(message, "Maurice/Ponte is not a valid subscriber name.");
}

#[test]
fn the_empty_name_is_rejected_with_the_bare_message() {
    let message = SubscriberName::parse(String::new()).unwrap_err();
    assert_eq!(message, " is not a valid subscriber name.");
}

#[test]
fn names_of_other_whitespace_are_rejected() {
    for name in ["\t", "\n", " \r\n ", "\u{A0}", "\u{3000}\u{2003}", "\u{2028}\u{2029}\u{85}"] {
        assert!(SubscriberName::parse(name.to_string()).is_err(), "{:?}", name);
    }
}

#[test]
fn a_name_of_a_zero_width_space_is_not_blank() {
    assert!(SubscriberName::parse("\u{200B}".to_string()).is_ok());
}

#[test]
fn combining_sequences_count_as_one_grapheme_each() {
    let cluster = "e\u{301}\u{332}";
    let name = cluster.repeat(256);
    assert_eq!(name.chars().count(), 768);
    assert!(SubscriberName::parse(name).is_ok());
    assert!(SubscriberName::parse(cluster.repeat(257)).is_err());
}

#[test]
fn a_line_break_pair_counts_as_one_grapheme() {
    let name = format!("a{}", "\r\n".repeat(255));
    assert!(SubscriberName::parse(name).is_ok());
    let name = format!("a{}", "\r\n".repeat(256));
    assert!(SubscriberName::parse(name).is_err());
}

#[test]
fn plain_names_at_the_length_boundary() {
    assert!(SubscriberName::parse("a".repeat(256)).is_ok());
    assert!(SubscriberName::parse("a".repeat(257)).is_err());
    assert!(SubscriberName::parse("a".to_string()).is_ok());
}

#[test]
fn length_is_counted_on_the_untrimmed_name() {
    let name = format!(" {}", "a".repeat(256));
    assert!(SubscriberName::parse(name).is_err());
    let name = format!(" {}", "a".repeat(255));
    assert!(SubscriberName::parse(name).is_ok());
}

#[test]
fn a_forbidden_char_anywhere_rejects_the_name() {
    for c in FORBIDDEN {
        for name in [format!("{}Maurice", c), format!("Mau{}rice", c), format!("Maurice{}", c)] {
            assert!(SubscriberName::parse(name.clone()).is_err(), "{:?}", name);
            assert!(contains_forbidden_char(&name));
            assert!(!validate_name(&name));
        }
    }
}

#[test]
fn similar_punctuation_is_allowed() {
    for name in ["Maurice [Ponte]", "Maurice | Ponte", "O'Neil", "Jean-Luc", "a.b,c;d:e", "¿Qué?"] {
        assert!(SubscriberName::parse(name.to_string()).is_ok(), "{:?}", name);
        assert!(!contains_forbidden_char(name));
    }
}

#[test]
fn exactly_nine_chars_are_forbidden() {
    let mut count = 0;
    for code in 0..=0x10FFFFu32 {
        if let Some(c) = char::from_u32(code) {
            assert_eq!(is_forbidden_char(c), FORBIDDEN.contains(&c), "{:?}", c);
            if is_forbidden_char(c) {
                count += 1;
            }
        }
    }
    assert_eq!(count, 9);
}

#[test]
fn the_empty_text_holds_no_forbidden_char() {
    assert!(!contains_forbidden_char(""));
}

#[test]
fn the_limit_is_256() {
    assert_eq!(MAX_GRAPHEMES, 256);
}

#[test]
fn findings_decide_the_verdict() {
    assert!(name_is_acceptable(false, 0, false));
    assert!(name_is_acceptable(false, 1, false));
    assert!(name_is_acceptable(false, 256, false));
    assert!(!name_is_acceptable(false, 257, false));
    assert!(!name_is_acceptable(false, usize::MAX, false));
    assert!(!name_is_acceptable(true, 1, false));
    assert!(!name_is_acceptable(false, 1, true));
    assert!(!name_is_acceptable(true, 257, true));
    assert!(!name_is_acceptable(true, 0, false));
}

#[test]
fn validate_name_agrees_with_parse() {
    for name in ["Maurice Ponte", "", " ", "a/b", "ë", "\u{200B}", "{}"] {
        let name = name.to_string();
        assert_eq!(validate_name(&name), SubscriberName::parse(name.clone()).is_ok(), "{:?}", name);
    }
    assert!(validate_name(&"ë".repeat(256)));
    assert!(!validate_name(&"ë".repeat(257)));
}

#[test]
fn parsing_a_name_twice_gives_the_same_outcome() {
    for name in ["Maurice Ponte", "", " ", "a<b", "ë"] {
        let first = SubscriberName::parse(name.to_string());
        let second = SubscriberName::parse(name.to_string());
        match (first, second) {
            (Ok(a), Ok(b)) => {
                assert_eq!(a.as_ref(), b.as_ref());
                assert_eq!(a.as_ref().as_bytes(), name.as_bytes());
            }
            (Err(a), Err(b)) => assert_eq!(a, b),
            _ => panic!("outcomes differ for {:?}", name),
        }
    }
}

#[test]
fn a_name_can_be_shown_for_debugging() {
    let name = SubscriberName::parse("Maurice".to_string()).unwrap();
    assert_eq!(format!("{:?}", name), "SubscriberName(\"Maurice\")");
}
