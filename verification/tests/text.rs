use carguix::text::{
    concatenate, copy_optional, copy_strings, is_white_space, same_text, tokens, trim,
};

fn strings(items: &[&str]) -> Vec<String> {
    items.iter().map(|item| item.to_string()).collect()
}

#[test]
fn tokens_are_the_words_between_white_space() {
    assert_eq!(tokens("serde 1.0.104 (registry+https://x)"), strings(&[
        "serde",
        "1.0.104",
        "(registry+https://x)"
    ]));
}

#[test]
fn a_text_without_white_space_is_one_token() {
    assert_eq!(tokens("serde"), strings(&["serde"]));
}

#[test]
fn an_empty_text_has_no_token() {
    assert_eq!(tokens(""), strings(&[]));
}

#[test]
fn white_space_alone_has_no_token() {
    assert_eq!(tokens(" "), strings(&[]));
    assert_eq!(tokens(" \t\n "), strings(&[]));
}

#[test]
fn a_run_of_white_space_separates_once() {
    assert_eq!(tokens("a  b"), strings(&["a", "b"]));
    assert_eq!(tokens("a \t \n b"), strings(&["a", "b"]));
}

#[test]
fn any_white_space_separates() {
    assert_eq!(tokens("a\tb"), strings(&["a", "b"]));
    assert_eq!(tokens("a\nb\rc"), strings(&["a", "b", "c"]));
    assert_eq!(tokens("a\u{a0}b\u{3000}c"), strings(&["a", "b", "c"]));
}

#[test]
fn white_space_at_the_ends_separates_nothing() {
    assert_eq!(tokens(" a"), strings(&["a"]));
    assert_eq!(tokens("a "), strings(&["a"]));
    assert_eq!(tokens("  a b  "), strings(&["a", "b"]));
}

#[test]
fn tokens_handle_characters_of_several_bytes() {
    assert_eq!(tokens("é ü"), strings(&["é", "ü"]));
}

#[test]
fn tokens_agree_with_std_split_whitespace() {
    for text in ["", " ", "a", "a b", " a  b\tc\n", "serde  1.0.104 (registry+x)", "\u{2003}x\u{85}y"] {
        let expected: Vec<String> = text.split_whitespace().map(|word| word.to_string()).collect();
        assert_eq!(tokens(text), expected);
    }
}

#[test]
fn same_text_compares_characters() {
    assert!(same_text("abc", "abc"));
    assert!(!same_text("abc", "abd"));
    assert!(!same_text("abc", "ab"));
    assert!(same_text("", ""));
}

#[test]
fn concat_appends() {
    assert_eq!(concatenate("abc", "def"), "abcdef");
    assert_eq!(concatenate("", "x"), "x");
    assert_eq!(concatenate("x", ""), "x");
}

#[test]
fn copies_are_equal() {
    let items = strings(&["a", "", "bc"]);
    assert_eq!(copy_strings(&items), items);
    assert_eq!(copy_optional(&Some("x".to_string())), Some("x".to_string()));
    assert_eq!(copy_optional(&None), None);
}

#[test]
fn white_space_is_what_unicode_says() {
    for c in [' ', '\t', '\n', '\r', '\u{0b}', '\u{0c}', '\u{85}', '\u{a0}', '\u{1680}',
        '\u{2000}', '\u{200a}', '\u{2028}', '\u{2029}', '\u{202f}', '\u{205f}', '\u{3000}']
    {
        assert!(is_white_space(c));
    }
    for c in ['a', '0', '-', '\u{200b}', '\u{feff}', '\u{8}', '\u{e}'] {
        assert!(!is_white_space(c));
    }
}

#[test]
fn white_space_agrees_with_std_on_every_character() {
    let mut code: u32 = 0;
    while code <= 0x10ffff {
        if let Some(c) = char::from_u32(code) {
            assert_eq!(is_white_space(c), c.is_whitespace());
        }
        code += 1;
    }
}

#[test]
fn trim_removes_white_space_at_both_ends() {
    assert_eq!(trim("  0abc123\n"), "0abc123");
    assert_eq!(trim("\t a b \r\n"), "a b");
    assert_eq!(trim("abc"), "abc");
}

#[test]
fn trim_of_white_space_is_empty() {
    assert_eq!(trim(" \n\t"), "");
    assert_eq!(trim(""), "");
}
