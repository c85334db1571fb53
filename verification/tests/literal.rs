use git_const::literal::{escape, quote};

#[test]
fn escape_leaves_plain_text_alone() {
    assert_eq!(escape(""), "");
    assert_eq!(escape("abc1234"), "abc1234");
    assert_eq!(escape("two\nlines"), "two\nlines");
    assert_eq!(escape("it's \u{e9}"), "it's \u{e9}");
}

#[test]
fn escape_puts_a_backslash_before_a_quote() {
    assert_eq!(escape("\""), "\\\"");
    assert_eq!(escape("say \"hi\""), "say \\\"hi\\\"");
}

#[test]
fn escape_doubles_a_backslash() {
    assert_eq!(escape("\\"), "\\\\");
    assert_eq!(escape("C:\\repo"), "C:\\\\repo");
    assert_eq!(escape("\\\""), "\\\\\\\"");
    assert_eq!(escape("\\n"), "\\\\n");
}

#[test]
fn escape_writes_a_carriage_return_as_an_escape() {
    assert_eq!(escape("\r"), "\\r");
    assert_eq!(escape("a\r\nb"), "a\\r\nb");
}

#[test]
fn quote_puts_the_body_between_quotes() {
    assert_eq!(quote(""), "\"\"");
    assert_eq!(quote("abc1234"), "\"abc1234\"");
    assert_eq!(quote("a\"b"), "\"a\\\"b\"");
    assert_eq!(quote("a\\"), "\"a\\\\\"");
}

#[test]
fn quote_of_a_short_text_begins_the_quote_of_a_longer_one() {
    let short = quote("abc1234");
    let full = quote("abc1234def5678");
    assert!(full.starts_with(&short[..short.len() - 1]));
}
