use mafuyu::autocomplete::{plan_lookup, Lookup};
use mafuyu::code::{find_bsr, hex_digit, whitespace, MAX_CODE_LEN};

fn code(input: &str) -> Option<String> {
    find_bsr(input)
}

#[test]
fn command_echo_gives_the_rest() {
    assert_eq!(code("!bsr 2f3a"), Some("2f3a".to_string()));
    assert_eq!(code("!bsr hello world"), Some("hello world".to_string()));
    assert_eq!(code("!bsr  2f3a "), Some(" 2f3a ".to_string()));
}

#[test]
fn command_echo_with_nothing_after_it_gives_the_empty_code() {
    assert_eq!(code("!bsr "), Some(String::new()));
}

#[test]
fn command_echo_needs_its_space() {
    assert_eq!(code("!bsr"), None);
    assert_eq!(code("!bsrabc"), None);
    assert_eq!(code(" !bsr 2f3a"), None);
}

#[test]
fn command_echo_comes_before_a_link() {
    assert_eq!(
        code("!bsr https://beatsaver.com/maps/2f3a"),
        Some("https://beatsaver.com/maps/2f3a".to_string())
    );
}

#[test]
fn command_echo_keeps_characters_of_several_bytes() {
    assert_eq!(code("!bsr 日本語"), Some("日本語".to_string()));
}

#[test]
fn link_gives_its_code() {
    assert_eq!(code("https://beatsaver.com/maps/2f3a"), Some("2f3a".to_string()));
    assert_eq!(code("beatsaver.com/maps/1"), Some("1".to_string()));
    assert_eq!(code("http://beatsaver.com/maps/ABCDEF12"), Some("ABCDEF12".to_string()));
}

#[test]
fn link_code_ends_at_the_first_other_character() {
    assert_eq!(code("https://beatsaver.com/maps/2f3a?tab=playlists"), Some("2f3a".to_string()));
    assert_eq!(code("https://beatsaver.com/maps/2f3a/"), Some("2f3a".to_string()));
    assert_eq!(code("https://beatsaver.com/maps/2fzz"), Some("2f".to_string()));
}

#[test]
fn link_may_stand_anywhere_in_the_input() {
    assert_eq!(
        code("look at https://beatsaver.com/maps/1a2b3 please"),
        Some("1a2b3".to_string())
    );
    assert_eq!(code("séance → beatsaver.com/maps/c0de!"), Some("c0de".to_string()));
}

#[test]
fn first_link_with_a_code_counts() {
    assert_eq!(
        code("beatsaver.com/maps/xyz beatsaver.com/maps/12 beatsaver.com/maps/34"),
        Some("12".to_string())
    );
}

#[test]
fn link_without_a_code_is_no_link() {
    assert_eq!(code("https://beatsaver.com/maps/"), None);
    assert_eq!(code("https://beatsaver.com/maps/zz"), None);
    assert_eq!(code("https://beatsaver.com/playlists/12"), None);
}

#[test]
fn link_comes_before_a_bare_code() {
    assert_eq!(code("beatsaver.com/maps/12"), Some("12".to_string()));
}

#[test]
fn bare_code_is_found() {
    assert_eq!(code("2f3a"), Some("2f3a".to_string()));
    assert_eq!(code("0"), Some("0".to_string()));
    assert_eq!(code("fffff"), Some("fffff".to_string()));
}

#[test]
fn bare_code_may_be_in_either_case() {
    assert_eq!(code("2F3a"), Some("2F3a".to_string()));
    assert_eq!(code("ABCDE"), Some("ABCDE".to_string()));
}

#[test]
fn bare_code_is_trimmed() {
    assert_eq!(code("  2f3a"), Some("2f3a".to_string()));
    assert_eq!(code("2f3a \t\n"), Some("2f3a".to_string()));
    assert_eq!(code("\r\n 2f3a \u{b}\u{c}"), Some("2f3a".to_string()));
}

#[test]
fn bare_code_is_trimmed_of_unicode_white_space() {
    assert_eq!(code("\u{2003}1f\u{a0}"), Some("1f".to_string()));
    assert_eq!(code("\u{3000}\u{85}beef\u{1680}\u{2028}\u{2029}"), Some("beef".to_string()));
    assert_eq!(code("\u{202f}\u{205f}\u{200a}\u{2000}7"), Some("7".to_string()));
}

#[test]
fn trimming_does_not_change_what_a_bare_code_gives() {
    for token in ["0", "2f3a", "ABCDE", "c0De", "fffff"] {
        let plain = code(token);
        assert_eq!(plain, Some(token.to_string()));
        for (left, right) in [("", " "), (" ", ""), ("\t \n", "\r\n"), ("\u{a0}", "\u{3000}")] {
            assert_eq!(code(&format!("{left}{token}{right}")), plain);
        }
    }
}

#[test]
fn bare_code_has_at_most_five_digits() {
    assert_eq!(MAX_CODE_LEN, 5);
    assert_eq!(code("12345"), Some("12345".to_string()));
    assert_eq!(code("123456"), None);
    assert_eq!(code(" abcdef "), None);
}

#[test]
fn white_space_inside_is_no_code() {
    assert_eq!(code("2f 3a"), None);
    assert_eq!(code("2f\u{a0}3a"), None);
}

#[test]
fn zero_width_space_is_no_white_space() {
    assert_eq!(code("\u{200b}2f3a"), None);
    assert_eq!(code("2f3a\u{feff}"), None);
}

#[test]
fn other_text_is_a_search_query() {
    assert_eq!(code(""), None);
    assert_eq!(code("   "), None);
    assert_eq!(code("hello"), None);
    assert_eq!(code("camellia"), None);
    assert_eq!(code("0x2f3a"), None);
    assert_eq!(code("２ｆ"), None);
}

#[test]
fn hex_digits_are_the_ascii_ones() {
    for c in "0123456789abcdefABCDEF".chars() {
        assert!(hex_digit(c), "{c}");
    }
    for c in "gGzZ/:@`[ -_\u{ff11}\u{663}".chars() {
        assert!(!hex_digit(c), "{c}");
    }
}

#[test]
fn white_space_is_what_std_calls_white_space() {
    for code_point in 0u32..=0x3100 {
        if let Some(c) = char::from_u32(code_point) {
            assert_eq!(whitespace(c), c.is_whitespace(), "U+{code_point:04X}");
        }
    }
    assert!(!whitespace('\u{feff}'));
    assert!(!whitespace('\u{10ffff}'));
}

#[test]
fn trimming_is_what_std_calls_trimming() {
    for input in ["", " ", " a ", "\u{a0}ab\u{2003}", "a b", "\u{200b}1", "\t\r\nf\u{3000}"] {
        let trimmed = input.trim();
        let expected = if !trimmed.is_empty()
            && trimmed.chars().count() <= MAX_CODE_LEN
            && trimmed.chars().all(|c| c.is_ascii_hexdigit())
        {
            Some(trimmed.to_string())
        } else {
            None
        };
        assert_eq!(code(input), expected, "{input:?}");
    }
}

#[test]
fn lookup_is_by_code_where_there_is_one() {
    assert_eq!(plan_lookup("!bsr 2f3a"), Lookup::Code("2f3a".to_string()));
    assert_eq!(plan_lookup("https://beatsaver.com/maps/2f3a"), Lookup::Code("2f3a".to_string()));
    assert_eq!(plan_lookup(" 2f3a "), Lookup::Code("2f3a".to_string()));
}

#[test]
fn lookup_is_a_search_for_the_input_as_it_stands() {
    assert_eq!(plan_lookup(" reol  "), Lookup::Search(" reol  ".to_string()));
    assert_eq!(plan_lookup(""), Lookup::Search(String::new()));
}
