use std::collections::HashSet;

use musickeyfinder::camelot::{key_for_index, key_name_of, key_to_camelot};
use musickeyfinder::errors::CreateKeyError;
use musickeyfinder::types::Key;

#[test]
fn new_rejects_position_above_twelve() {
    assert_eq!(Key::new(13, 'A'), Err(CreateKeyError::InvalidNumberError));
}

#[test]
fn new_rejects_position_zero() {
    assert_eq!(Key::new(0, 'A'), Err(CreateKeyError::InvalidNumberError));
    assert_eq!(Key::new(-3, 'B'), Err(CreateKeyError::InvalidNumberError));
}

#[test]
fn new_rejects_bad_letter() {
    assert_eq!(Key::new(5, 'C'), Err(CreateKeyError::InvalidLetterError));
    assert_eq!(Key::new(12, 'a'), Err(CreateKeyError::InvalidLetterError));
}

#[test]
fn number_is_checked_before_letter() {
    assert_eq!(Key::new(13, 'C'), Err(CreateKeyError::InvalidNumberError));
}

#[test]
fn new_accepts_valid_key_and_renders_it() {
    let k = Key::new(5, 'A').unwrap();
    assert_eq!(k.num(), 5);
    assert_eq!(k.letter(), 'A');
    assert_eq!(k.to_string(), "5A");
}

#[test]
fn new_force_renders_two_digit_position() {
    assert_eq!(Key::new_force(12, 'B').to_string(), "12B");
    assert_eq!(Key::new_force(10, 'A').to_string(), "10A");
    assert_eq!(Key::new_force(1, 'B').to_string(), "1B");
}

#[test]
fn from_code_reads_valid_codes() {
    assert_eq!(Key::from_code("8B"), Some(Key::new_force(8, 'B')));
    assert_eq!(Key::from_code("11A"), Some(Key::new_force(11, 'A')));
    assert_eq!(Key::from_code("1A"), Some(Key::new_force(1, 'A')));
}

#[test]
fn from_code_rejects_invalid_codes() {
    assert_eq!(Key::from_code(""), None);
    assert_eq!(Key::from_code("0A"), None);
    assert_eq!(Key::from_code("13B"), None);
    assert_eq!(Key::from_code("5C"), None);
    assert_eq!(Key::from_code("05A"), None);
    assert_eq!(Key::from_code("8 B"), None);
    assert_eq!(Key::from_code("C Major"), None);
}

#[test]
fn key_names_of_candidates() {
    assert_eq!(key_name_of(0), "C Major");
    assert_eq!(key_name_of(1), "C# Major");
    assert_eq!(key_name_of(11), "B Major");
    assert_eq!(key_name_of(12), "C Minor");
    assert_eq!(key_name_of(21), "A Minor");
    assert_eq!(key_name_of(23), "B Minor");
}

#[test]
fn camelot_lookup_examples() {
    assert_eq!(key_to_camelot("C Major"), "8B");
    assert_eq!(key_to_camelot("A Minor"), "8A");
    assert_eq!(key_to_camelot("F# Major"), "2B");
    assert_eq!(key_to_camelot("G# Minor"), "1A");
    assert_eq!(key_to_camelot("B Minor"), "10A");
}

#[test]
fn camelot_lookup_is_a_bijection_onto_codes() {
    let mut seen = HashSet::new();
    for i in 0..24 {
        let name = key_name_of(i);
        let code = key_to_camelot(&name);
        let key = Key::from_code(code).expect("lookup gives a valid code");
        assert_eq!(key.to_string(), code);
        assert!(seen.insert(code.to_string()), "code {} repeated", code);
    }
    let mut all = HashSet::new();
    for n in 1..=12 {
        all.insert(format!("{}A", n));
        all.insert(format!("{}B", n));
    }
    assert_eq!(seen, all);
}

#[test]
fn key_for_index_follows_lookup() {
    assert_eq!(key_for_index(0).to_string(), "8B");
    assert_eq!(key_for_index(21).to_string(), "8A");
    assert_eq!(key_for_index(13).to_string(), "12A");
    assert_eq!(key_for_index(4).to_string(), "12B");
}
