use nivaro_backend::text::{
    contains_char, is_blank_text, same_text, skip_chars, starts_with, trim,
};
use nivaro_backend::validation::{
    classes_of, is_strong_password, is_valid_email, meets_policy, CharClasses,
};

#[test]
fn same_text_compares_whole_texts() {
    assert!(same_text("abc", "abc"));
    assert!(!same_text("abc", "abd"));
    assert!(!same_text("abc", "ab"));
    assert!(same_text("", ""));
}

#[test]
fn contains_char_finds_a_character_anywhere() {
    assert!(contains_char("a@b", '@'));
    assert!(contains_char("@", '@'));
    assert!(!contains_char("ab", '@'));
    assert!(!contains_char("", '@'));
}

#[test]
fn starts_with_needs_the_whole_prefix() {
    assert!(starts_with("Bearer abc", "Bearer "));
    assert!(starts_with("Bearer ", "Bearer "));
    assert!(!starts_with("Bearer", "Bearer "));
    assert!(!starts_with("bearer abc", "Bearer "));
    assert!(starts_with("anything", ""));
}

#[test]
fn skip_chars_counts_characters_not_bytes() {
    assert_eq!(skip_chars("Bearer tok", 7), "tok");
    assert_eq!(skip_chars("éèà!", 2), "à!");
    assert_eq!(skip_chars("abc", 3), "");
    assert_eq!(skip_chars("abc", 0), "abc");
}

#[test]
fn trim_drops_white_space_at_both_ends_only() {
    assert_eq!(trim("  a b \t"), "a b");
    assert_eq!(trim("a"), "a");
    assert_eq!(trim("   "), "");
    assert_eq!(trim(""), "");
    assert_eq!(trim("\u{2003}x\u{2003}"), "x");
    assert_eq!(trim(" é "), "é");
}

#[test]
fn blank_text_is_empty_or_white_space_only() {
    assert!(is_blank_text(""));
    assert!(is_blank_text(" \t\n"));
    assert!(!is_blank_text(" a "));
}

#[test]
fn email_needs_an_at_sign_and_a_dot() {
    assert!(is_valid_email("demo@x.com"));
    assert!(!is_valid_email("demo.x.com"));
    assert!(!is_valid_email("demo@xcom"));
    assert!(!is_valid_email(""));
    assert!(is_valid_email(".@"));
}

#[test]
fn strong_password_needs_every_character_class() {
    assert!(is_strong_password("Passw0rd!"));
    assert!(!is_strong_password("passw0rd!"));
    assert!(!is_strong_password("PASSW0RD!"));
    assert!(!is_strong_password("Password!"));
    assert!(!is_strong_password("Passw0rdd"));
}

#[test]
fn strong_password_needs_eight_bytes() {
    assert!(!is_strong_password("Pa0!"));
    assert!(!is_strong_password("Passw0!"));
    assert!(is_strong_password("Passw0!x"));
    assert!(!is_strong_password(""));
}

#[test]
fn strong_password_counts_bytes_and_knows_unicode_classes() {
    // Six characters, eight bytes: two of them take two bytes each.
    assert!(is_strong_password("Éa1!ñx"));
    // Upper case, lower case and digit outside ASCII.
    assert!(is_strong_password("Ωω٣-abcd"));
}

#[test]
fn password_policy_on_given_findings() {
    let all = CharClasses { upper: true, lower: true, digit: true, special: true };
    assert!(meets_policy(8, all));
    assert!(!meets_policy(7, all));
    assert!(!meets_policy(80, CharClasses { upper: false, ..all }));
    assert!(!meets_policy(80, CharClasses { lower: false, ..all }));
    assert!(!meets_policy(80, CharClasses { digit: false, ..all }));
    assert!(!meets_policy(80, CharClasses { special: false, ..all }));
    assert_eq!(classes_of("Passw0rd!"), all);
    assert_eq!(
        classes_of("abc"),
        CharClasses { upper: false, lower: true, digit: false, special: false }
    );
    assert_eq!(
        classes_of(""),
        CharClasses { upper: false, lower: false, digit: false, special: false }
    );
    assert_eq!(
        classes_of("A 1"),
        CharClasses { upper: true, lower: false, digit: true, special: true }
    );
}
