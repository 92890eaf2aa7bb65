use snob::csets::{
    AnyCharacter, Ascii, AsciiDigits, AsciiLetters, AsciiLowercase, AsciiUppercase, CharacterSet,
    Combine,
};
use std::collections::HashSet;

#[test]
fn any_character_contains_everything() {
    assert!(AnyCharacter.contains('a'));
    assert!(AnyCharacter.contains(' '));
    assert!(AnyCharacter.contains('\u{10FFFF}'));
    assert!(AnyCharacter.contains('é'));
}

#[test]
fn ascii_bounds() {
    assert!(Ascii.contains('\u{0}'));
    assert!(Ascii.contains('\u{7F}'));
    assert!(!Ascii.contains('\u{80}'));
    assert!(!Ascii.contains('é'));
}

#[test]
fn ascii_digits_bounds() {
    assert!(AsciiDigits.contains('0'));
    assert!(AsciiDigits.contains('9'));
    assert!(!AsciiDigits.contains('/'));
    assert!(!AsciiDigits.contains(':'));
    assert!(!AsciiDigits.contains('a'));
}

#[test]
fn ascii_case_sets() {
    assert!(AsciiLowercase.contains('a'));
    assert!(AsciiLowercase.contains('z'));
    assert!(!AsciiLowercase.contains('A'));
    assert!(!AsciiLowercase.contains('{'));
    assert!(AsciiUppercase.contains('A'));
    assert!(AsciiUppercase.contains('Z'));
    assert!(!AsciiUppercase.contains('a'));
    assert!(!AsciiUppercase.contains('@'));
}

#[test]
fn ascii_letters() {
    assert!(AsciiLetters.contains('h'));
    assert!(AsciiLetters.contains('Q'));
    assert!(!AsciiLetters.contains(' '));
    assert!(!AsciiLetters.contains('5'));
    assert!(!AsciiLetters.contains('é'));
}

#[test]
fn literal_char_set() {
    assert!('x'.contains('x'));
    assert!(!'x'.contains('y'));
}

#[test]
fn slice_set() {
    let chars: &[char] = &['a', 'b', 'c'];
    assert!(CharacterSet::contains(&chars, 'b'));
    assert!(!CharacterSet::contains(&chars, 'd'));
    let empty: &[char] = &[];
    assert!(!CharacterSet::contains(&empty, 'a'));
}

#[test]
fn str_set() {
    assert!(CharacterSet::contains(&"Hello, world", 'w'));
    assert!(CharacterSet::contains(&"Hello, world", ','));
    assert!(!CharacterSet::contains(&"Hello, world", 'z'));
    assert!(!CharacterSet::contains(&"", 'a'));
}

#[test]
fn hash_set_set() {
    let mut set = HashSet::new();
    set.insert('q');
    set.insert('7');
    assert!(CharacterSet::contains(&set, 'q'));
    assert!(CharacterSet::contains(&set, '7'));
    assert!(!CharacterSet::contains(&set, 'r'));
}

#[test]
fn union_contains_either() {
    let cset = AsciiLetters.union(' ');
    assert!(cset.contains('h'));
    assert!(cset.contains(' '));
    assert!(!cset.contains(','));
}

#[test]
fn intersection_contains_both() {
    let cset = AsciiLetters.intersection("Hello, world");
    assert!(cset.contains('e'));
    assert!(!cset.contains('a'));
    assert!(!cset.contains(' '));
}

#[test]
fn difference_contains_first_only() {
    let cset = AsciiLetters.difference("Hello, world");
    assert!(cset.contains('a'));
    assert!(!cset.contains('e'));
    assert!(!cset.contains(' '));
}

#[test]
fn complement_contains_rest() {
    let cset = AsciiLetters.complement();
    assert!(!cset.contains('a'));
    assert!(cset.contains(' '));
}

#[test]
fn complement_twice_is_original() {
    for c in ['a', 'Z', '0', ' ', 'é'] {
        assert_eq!(AsciiLetters.complement().complement().contains(c), AsciiLetters.contains(c));
    }
}

#[test]
fn union_law_on_values() {
    for c in ['a', '5', ' ', '-', 'É'] {
        assert_eq!(
            AsciiLowercase.union(AsciiDigits).contains(c),
            AsciiLowercase.contains(c) || AsciiDigits.contains(c)
        );
    }
}

#[test]
fn de_morgan_on_values() {
    for c in ['a', 'A', '5', ' '] {
        let left = AsciiLowercase.union(AsciiDigits).complement().contains(c);
        let right = AsciiLowercase.complement().intersection(AsciiDigits.complement()).contains(c);
        assert_eq!(left, right);
    }
}

#[test]
fn difference_is_intersection_with_complement_on_values() {
    for c in ['a', 'A', 'e', ' '] {
        assert_eq!(
            AsciiLetters.difference(AsciiUppercase).contains(c),
            AsciiLetters.intersection(AsciiUppercase.complement()).contains(c)
        );
    }
}
