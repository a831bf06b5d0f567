use kvlite::name::{is_name_char, valid_name};

#[test]
fn valid_name_accepts_letters_digits_and_underscores() {
    assert!(valid_name("store"));
    assert!(valid_name("Store_2"));
    assert!(valid_name("_"));
    assert!(valid_name("0"));
    assert!(valid_name("kv_store_0123456789_ABCXYZ_abcxyz"));
}

#[test]
fn valid_name_rejects_the_empty_name() {
    assert!(!valid_name(""));
}

#[test]
fn valid_name_rejects_text_that_would_change_the_statement() {
    assert!(!valid_name("store; DROP TABLE store"));
    assert!(!valid_name("a;b"));
    assert!(!valid_name("a b"));
    assert!(!valid_name("a-b"));
    assert!(!valid_name("a.b"));
    assert!(!valid_name("store'"));
    assert!(!valid_name("\"store\""));
    assert!(!valid_name("store)"));
    assert!(!valid_name("store\n"));
    assert!(!valid_name(" store"));
}

#[test]
fn valid_name_rejects_a_bad_character_in_any_place() {
    assert!(!valid_name("?tore"));
    assert!(!valid_name("st?re"));
    assert!(!valid_name("stor?"));
}

#[test]
fn valid_name_rejects_letters_outside_ascii() {
    assert!(!valid_name("tabl\u{e9}"));
    assert!(!valid_name("\u{3b1}\u{3b2}"));
}

#[test]
fn is_name_char_holds_at_the_ends_of_each_range() {
    for c in ['a', 'z', 'A', 'Z', '0', '9', '_', 'm', 'M', '5'] {
        assert!(is_name_char(c), "{:?}", c);
    }
}

#[test]
fn is_name_char_fails_next_to_each_range() {
    for c in ['`', '{', '@', '[', '/', ':', ' ', '-', '?', '\'', '"', ';', '\u{e9}'] {
        assert!(!is_name_char(c), "{:?}", c);
    }
}
