use mafuyu::truncate::truncate_string;

fn cut(text: &str, limit: usize, end: &str) -> String {
    truncate_string(text.to_string(), limit, end.to_string())
}

#[test]
fn short_text_is_kept() {
    assert_eq!(cut("hi", 8, "..."), "hi");
    assert_eq!(cut("", 8, "..."), "");
    assert_eq!(cut("abcd", 8, "..."), "abcd");
}

#[test]
fn long_text_is_cut_to_the_limit() {
    assert_eq!(cut("hello world", 8, "..."), "hello...");
    assert_eq!(cut("abcdefghijklmnopqrstuvwxyz", 10, "~"), "abcdefghi~");
}

#[test]
fn text_that_just_reaches_the_room_is_marked_too() {
    assert_eq!(cut("hello", 8, "..."), "hello...");
    assert_eq!(cut("hellos", 8, "..."), "hello...");
    assert_eq!(cut("hellooo!", 8, "..."), "hello...");
}

#[test]
fn limit_as_long_as_the_mark_leaves_the_mark() {
    assert_eq!(cut("hello", 3, "..."), "...");
    assert_eq!(cut("", 3, "..."), "...");
    assert_eq!(cut("", 0, ""), "");
}

#[test]
fn empty_mark_cuts_to_the_limit() {
    assert_eq!(cut("hello", 3, ""), "hel");
    assert_eq!(cut("he", 3, ""), "he");
    assert_eq!(cut("hel", 3, ""), "hel");
}

#[test]
fn lengths_are_counted_in_characters() {
    assert_eq!(cut("日本語のテキスト", 6, "..."), "日本語...");
    assert_eq!(cut("日本", 6, "..."), "日本");
    assert_eq!(cut("ääääää", 5, "…"), "ääää…");
    assert_eq!(cut("🎵🎵🎵🎵", 3, "."), "🎵🎵.");
}

#[test]
fn cut_text_has_the_limit_as_length_and_ends_with_the_mark() {
    let texts = ["", "a", "abc", "abcdefgh", "Rondo alla turca — 日本語", "🎵🎵🎵🎵🎵🎵🎵🎵🎵🎵🎵"];
    for text in texts {
        for end in ["", ".", "...", "…"] {
            let end_len = end.chars().count();
            for limit in end_len..14 {
                let result = cut(text, limit, end);
                if text.chars().count() < limit - end_len {
                    assert_eq!(result, text);
                } else {
                    assert_eq!(result.chars().count(), limit);
                    assert!(result.ends_with(end));
                    let kept: String = text.chars().take(limit - end_len).collect();
                    assert!(result.starts_with(&kept));
                }
            }
        }
    }
}
