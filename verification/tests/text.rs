use batch_rs::text::{chars_of, same_text, same_text_ignoring_case, white_space};

#[test]
fn white_space_is_what_unicode_calls_white_space() {
    for code in 0..=0x10ffff_u32 {
        if let Some(c) = char::from_u32(code) {
            assert_eq!(white_space(c), c.is_whitespace(), "{:?}", c);
        }
    }
}

#[test]
fn chars_of_gives_the_characters_in_order() {
    assert_eq!(chars_of(""), Vec::<char>::new());
    assert_eq!(chars_of("a/b"), vec!['a', '/', 'b']);
    assert_eq!(chars_of("été"), vec!['é', 't', 'é']);
}

#[test]
fn same_text_compares_character_by_character() {
    assert!(same_text("", ""));
    assert!(same_text("row_id", "row_id"));
    assert!(!same_text("row_id", "row_ids"));
    assert!(!same_text("row_id", "Row_id"));
    assert!(!same_text("abc", "abd"));
    assert!(!same_text("", "a"));
}

#[test]
fn ignoring_case_is_what_std_ignores() {
    let samples = [
        "", "a", "A", "z", "Z", "@", "[", "`", "{", "row_id", "ROW_ID", "Row_Id", "row_ie",
        "row_id ", "é", "É", "k", "K", "\u{212a}", "ß", "SS", "ǅ", "ab", "Ab", "aB", "AB",
    ];
    for a in samples {
        for b in samples {
            assert_eq!(same_text_ignoring_case(a, b), a.eq_ignore_ascii_case(b), "{:?} {:?}", a, b);
        }
    }
    for code in 0..=0x10ffff_u32 {
        if let Some(c) = char::from_u32(code) {
            let s = c.to_string();
            assert_eq!(same_text_ignoring_case(&s, "a"), s.eq_ignore_ascii_case("a"));
            assert_eq!(same_text_ignoring_case(&s, "Z"), s.eq_ignore_ascii_case("Z"));
        }
    }
}
