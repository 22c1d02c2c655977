use password_generator::charset::{
    build_charset, LOWERCASE, NUMBERS, SPECIAL_CHARACTERS, UPPERCASE,
};
use password_generator::generate::{
    draw_indices, generate_password, sample_from, select_chars, GenerateError,
};

fn expected_charset(upper: bool, numbers: bool, special: bool) -> String {
    let mut s = String::from("abcdefghijklmnopqrstuvwxyz");
    if upper {
        s.push_str("ABCDEFGHIJKLMNOPQRSTUVWXYZ");
    }
    if numbers {
        s.push_str("0123456789");
    }
    if special {
        s.push_str("!@#$%^&*()_-+=<>?");
    }
    s
}

#[test]
fn categories_hold_the_expected_characters() {
    assert_eq!(LOWERCASE, "abcdefghijklmnopqrstuvwxyz");
    assert_eq!(UPPERCASE, "ABCDEFGHIJKLMNOPQRSTUVWXYZ");
    assert_eq!(NUMBERS, "0123456789");
    assert_eq!(SPECIAL_CHARACTERS, "!@#$%^&*()_-+=<>?");
}

#[test]
fn charset_is_assembled_in_order_for_every_flag_combination() {
    for bits in 0..8u8 {
        let (u, n, s) = (bits & 1 != 0, bits & 2 != 0, bits & 4 != 0);
        assert_eq!(build_charset(u, n, s), expected_charset(u, n, s));
    }
    assert_eq!(build_charset(false, false, false).chars().count(), 26);
    assert_eq!(build_charset(true, false, false).chars().count(), 52);
    assert_eq!(build_charset(false, true, false).chars().count(), 36);
    assert_eq!(build_charset(false, false, true).chars().count(), 43);
    assert_eq!(build_charset(true, true, true).chars().count(), 79);
}

#[test]
fn generated_password_has_requested_length_and_charset() {
    for bits in 0..8u8 {
        let (u, n, s) = (bits & 1 != 0, bits & 2 != 0, bits & 4 != 0);
        let charset = expected_charset(u, n, s);
        for length in [0usize, 1, 2, 7, 8, 12, 33, 200] {
            let password = generate_password(length, u, n, s);
            assert_eq!(password.chars().count(), length);
            assert_eq!(password.len(), length);
            assert!(password.chars().all(|c| charset.contains(c)));
        }
    }
}

#[test]
fn zero_length_gives_the_empty_string() {
    assert_eq!(generate_password(0, true, true, true), "");
    assert_eq!(generate_password(0, false, false, false), "");
}

#[test]
fn lowercase_only_pool_gives_lowercase_only() {
    let password = generate_password(64, false, false, false);
    assert!(password.chars().all(|c| c.is_ascii_lowercase()));
}

#[test]
fn repeated_generation_differs() {
    let first = generate_password(32, true, true, true);
    let second = generate_password(32, true, true, true);
    assert_ne!(first, second);
}

#[test]
fn select_chars_picks_position_by_position() {
    assert_eq!(select_chars("abc", &vec![2, 0, 0, 1]), Ok(String::from("caab")));
    assert_eq!(select_chars("abc", &vec![]), Ok(String::new()));
    assert_eq!(select_chars("xyz", &vec![1]), Ok(String::from("y")));
}

#[test]
fn select_chars_counts_characters_not_bytes() {
    assert_eq!(select_chars("é!ß", &vec![2, 1, 0]), Ok(String::from("ß!é")));
}

#[test]
fn select_chars_rejects_an_index_past_the_end() {
    assert_eq!(select_chars("abc", &vec![0, 3]), Err(GenerateError::IndexOutOfRange));
    assert_eq!(select_chars("", &vec![0]), Err(GenerateError::IndexOutOfRange));
}

#[test]
fn draw_indices_stay_below_the_bound() {
    let indices = draw_indices(500, 7);
    assert_eq!(indices.len(), 500);
    assert!(indices.iter().all(|&i| i < 7));
    assert_eq!(draw_indices(5, 1), vec![0, 0, 0, 0, 0]);
    assert!(draw_indices(0, 3).is_empty());
}

#[test]
fn draw_indices_reach_every_position() {
    let indices = draw_indices(2000, 4);
    for position in 0..4usize {
        assert!(indices.contains(&position));
    }
}

#[test]
fn sample_from_draws_from_the_given_pool() {
    let sampled = sample_from("xy", 50).unwrap();
    assert_eq!(sampled.chars().count(), 50);
    assert!(sampled.chars().all(|c| c == 'x' || c == 'y'));
    assert_eq!(sample_from("q", 4), Ok(String::from("qqqq")));
}

#[test]
fn sample_from_an_empty_pool_fails_explicitly() {
    assert_eq!(sample_from("", 3), Err(GenerateError::EmptyCharset));
    assert_eq!(sample_from("", 1), Err(GenerateError::EmptyCharset));
}

#[test]
fn sample_nothing_from_any_pool_succeeds() {
    assert_eq!(sample_from("", 0), Ok(String::new()));
    assert_eq!(sample_from("abc", 0), Ok(String::new()));
}

#[test]
fn different_draws_give_different_passwords() {
    let charset = build_charset(true, true, true);
    let first = select_chars(&charset, &vec![0, 30, 55, 78]).unwrap();
    let second = select_chars(&charset, &vec![0, 31, 55, 62]).unwrap();
    assert_eq!(first, "aE3?");
    assert_eq!(second, "aF3!");
    let a: Vec<char> = first.chars().collect();
    let b: Vec<char> = second.chars().collect();
    assert_eq!(a[0], b[0]);
    assert_ne!(a[1], b[1]);
    assert_eq!(a[2], b[2]);
    assert_ne!(a[3], b[3]);
}

#[test]
fn no_character_occurs_twice_in_a_pool() {
    let chars: Vec<char> = build_charset(true, true, true).chars().collect();
    for i in 0..chars.len() {
        for j in (i + 1)..chars.len() {
            assert_ne!(chars[i], chars[j]);
        }
    }
}
