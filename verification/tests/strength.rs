use password_generator::strength::{
    check_password_strength, classify, is_digit_char, occurs_in, password_strength, Strength,
};
use password_generator::text::{chars_of, same_text};

#[test]
fn strong_example() {
    assert_eq!(check_password_strength("Ab3!Ab3!Ab3!"), "Strong");
    assert_eq!(password_strength("Ab3!Ab3!Ab3!"), Strength::Strong);
}

#[test]
fn lowercase_only_is_weak() {
    assert_eq!(check_password_strength("abcdefgh"), "Weak");
    assert_eq!(password_strength("abcdefgh"), Strength::Weak);
}

#[test]
fn eight_with_digit_is_medium() {
    assert_eq!(check_password_strength("abcdefg1"), "Medium");
    assert_eq!(password_strength("abcdefg1"), Strength::Medium);
}

#[test]
fn same_password_same_label() {
    for password in ["", "abc", "abcdefg1", "Ab3!Ab3!Ab3!", "ABCDEFGH"] {
        assert_eq!(check_password_strength(password), check_password_strength(password));
        let copy = String::from(password);
        assert_eq!(check_password_strength(password), check_password_strength(&copy));
    }
}

#[test]
fn medium_needs_one_of_three_categories() {
    assert_eq!(password_strength("abcdefgH"), Strength::Medium);
    assert_eq!(password_strength("abcdefg!"), Strength::Medium);
    assert_eq!(password_strength("ABCDEFGH"), Strength::Medium);
    assert_eq!(password_strength("12345678"), Strength::Medium);
    assert_eq!(password_strength("abcdefg "), Strength::Weak);
}

#[test]
fn short_passwords_are_weak() {
    assert_eq!(password_strength(""), Strength::Weak);
    assert_eq!(password_strength("Ab3!"), Strength::Weak);
    assert_eq!(password_strength("Ab3!Ab3"), Strength::Weak);
}

#[test]
fn strong_needs_twelve_and_all_four() {
    assert_eq!(password_strength("Ab3!Ab3!Ab3"), Strength::Medium);
    assert_eq!(password_strength("AB3!AB3!AB3!"), Strength::Medium);
    assert_eq!(password_strength("ab3!ab3!ab3!"), Strength::Medium);
    assert_eq!(password_strength("Abc!Abc!Abc!"), Strength::Medium);
    assert_eq!(password_strength("Ab35Ab35Ab35"), Strength::Medium);
    assert_eq!(password_strength("Ab3!Ab3!Ab3!x"), Strength::Strong);
}

#[test]
fn letters_outside_ascii_count_by_their_case() {
    assert_eq!(password_strength("ßßßßßßßÉ"), Strength::Medium);
    assert_eq!(password_strength("ßßßßßßßß"), Strength::Weak);
    assert_eq!(password_strength("Éß3!Éß3!abcd"), Strength::Strong);
    assert_eq!(password_strength("éß3!éß3!abcd"), Strength::Medium);
}

#[test]
fn length_counts_characters() {
    assert_eq!(password_strength("ßßßÉ"), Strength::Weak);
    assert_eq!(password_strength("ééé1ééé"), Strength::Weak);
    assert_eq!(check_password_strength("ééé1ééé"), "Weak");
    assert_eq!(password_strength("ééé1éééé"), Strength::Medium);
    assert_eq!(password_strength("Éß3!Éß3!"), Strength::Medium);
    assert_eq!(password_strength("Éß3!Éß3!Éß3"), Strength::Medium);
    assert_eq!(password_strength("Éß3!Éß3!Éß3!"), Strength::Strong);
}

#[test]
fn classify_follows_the_rule() {
    assert_eq!(classify(12, true, true, true, true), Strength::Strong);
    assert_eq!(classify(11, true, true, true, true), Strength::Medium);
    assert_eq!(classify(12, true, false, true, true), Strength::Medium);
    assert_eq!(classify(8, false, true, false, false), Strength::Weak);
    assert_eq!(classify(8, false, false, false, true), Strength::Medium);
    assert_eq!(classify(8, false, false, true, false), Strength::Medium);
    assert_eq!(classify(8, true, false, false, false), Strength::Medium);
    assert_eq!(classify(7, true, true, true, true), Strength::Weak);
    assert_eq!(classify(0, false, false, false, false), Strength::Weak);
    assert_eq!(classify(usize::MAX, true, true, true, true), Strength::Strong);
}

#[test]
fn labels_as_text() {
    assert_eq!(Strength::Weak.label(), "Weak");
    assert_eq!(Strength::Medium.label(), "Medium");
    assert_eq!(Strength::Strong.label(), "Strong");
}

#[test]
fn digits_are_zero_to_nine() {
    for c in "0123456789".chars() {
        assert!(is_digit_char(c));
    }
    for c in ['a', 'A', '/', ':', ' ', '٣'] {
        assert!(!is_digit_char(c));
    }
}

#[test]
fn occurs_in_finds_exact_characters() {
    let symbols = vec!['!', '?', 'a'];
    assert!(occurs_in(&symbols, '?'));
    assert!(occurs_in(&symbols, 'a'));
    assert!(!occurs_in(&symbols, 'A'));
    assert!(!occurs_in(&vec![], 'a'));
}

#[test]
fn chars_of_lists_the_characters() {
    assert_eq!(chars_of("aß!"), vec!['a', 'ß', '!']);
    assert_eq!(chars_of(""), Vec::<char>::new());
}

#[test]
fn same_text_compares_character_by_character() {
    assert!(same_text("yes", "yes"));
    assert!(same_text("", ""));
    assert!(!same_text("yes", "yer"));
    assert!(!same_text("yes", "ye"));
    assert!(!same_text("", "y"));
}
