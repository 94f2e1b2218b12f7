//! The trigger and argument parsers on their boundary cases.

use euphoxide::command::args::parse_quoted_args;
use euphoxide::command::bang::parse_prefix_initiated;

fn prefixed(text: &str, prefix: &str) -> Option<(String, String)> {
    parse_prefix_initiated(text, prefix)
}

fn pair(name: &str, rest: &str) -> Option<(String, String)> {
    Some((name.to_string(), rest.to_string()))
}

#[test]
fn test_parse_prefixed() {
    assert_eq!(prefixed("!foo", "!"), pair("foo", ""));
    assert_eq!(prefixed("    !foo", "!"), pair("foo", ""));
    assert_eq!(prefixed("!foo    ", "!"), pair("foo", "   "));
    assert_eq!(prefixed("    !foo    ", "!"), pair("foo", "   "));
    assert_eq!(prefixed("!foo @bar", "!"), pair("foo", "@bar"));
    assert_eq!(prefixed("!foo    @bar", "!"), pair("foo", "   @bar"));
    assert_eq!(prefixed("!foo @bar   ", "!"), pair("foo", "@bar   "));
    assert_eq!(prefixed("! foo @bar", "!"), None);
    assert_eq!(prefixed("!", "!"), None);
    assert_eq!(prefixed("?foo", "!"), None);
}

#[test]
fn bang_test_parse_prefixed() {
    assert_eq!(prefixed("!foo", "!"), pair("foo", ""));
    assert_eq!(prefixed("    !foo", "!"), pair("foo", ""));
    assert_eq!(prefixed("!foo    ", "!"), pair("foo", "   "));
    assert_eq!(prefixed("    !foo    ", "!"), pair("foo", "   "));
    assert_eq!(prefixed("!foo @bar", "!"), pair("foo", "@bar"));
    assert_eq!(prefixed("!foo    @bar", "!"), pair("foo", "   @bar"));
    assert_eq!(prefixed("!foo @bar   ", "!"), pair("foo", "@bar   "));
    assert_eq!(prefixed("! foo @bar", "!"), None);
    assert_eq!(prefixed("!", "!"), None);
    assert_eq!(prefixed("?foo", "!"), None);
    // leading whitespace is skipped and one separator is consumed
    assert_eq!(prefixed("  !foo   bar  baz ", "!"), pair("foo", "  bar  baz "));
}

fn assert_quoted(raw: &str, parsed: &[&str]) {
    let parsed: Vec<String> = parsed.iter().map(|s| s.to_string()).collect();
    assert_eq!(parse_quoted_args(raw), Ok(parsed));
}

#[test]
fn test_parse_quoted_args() {
    assert_quoted("foo bar baz", &["foo", "bar", "baz"]);
    assert_quoted("    foo     bar     baz    ", &["foo", "bar", "baz"]);
    assert_quoted("foo\\ ba\"r ba\"z", &["foo bar baz"]);
    assert_quoted(
        "It's a nice day, isn't it?",
        &["It's", "a", "nice", "day,", "isn't", "it?"],
    );

    // Trailing whitespace
    assert_quoted("a ", &["a"]);
    assert_quoted("a\\ ", &["a "]);
    assert_quoted("a\\  ", &["a "]);

    // Zero-length arguments
    assert_quoted("a \"\" b \"\"", &["a", "", "b", ""]);
    assert_quoted("a \"\" b \"\" ", &["a", "", "b", ""]);

    // Backslashes in quotes
    assert_quoted("\"a \\b \\\" \\\\\"", &["a \\b \" \\"]);

    // Unclosed quotes and unfinished escapes
    assert!(parse_quoted_args("foo 'bar \"baz").is_err());
    assert!(parse_quoted_args("foo \"bar baz").is_err());
    assert!(parse_quoted_args("foo \"bar 'baz").is_err());
    assert!(parse_quoted_args("foo \\").is_err());
    assert!(parse_quoted_args("foo 'bar\\").is_err());
}

#[test]
fn clap_test_parse_quoted_args() {
    assert_quoted("foo bar baz", &["foo", "bar", "baz"]);
    assert_quoted("    foo     bar     baz    ", &["foo", "bar", "baz"]);
    assert_quoted("foo\\ ba\"r ba\"z", &["foo bar baz"]);
    assert_quoted(
        "It's a nice day, isn't it?",
        &["It's", "a", "nice", "day,", "isn't", "it?"],
    );
    assert_quoted("a ", &["a"]);
    assert_quoted("a\\ ", &["a "]);
    assert_quoted("a\\  ", &["a "]);
    assert_quoted("a \"\" b \"\"", &["a", "", "b", ""]);
    assert_quoted("a \"\" b \"\" ", &["a", "", "b", ""]);
    assert_quoted("\"a \\b \\\" \\\\\"", &["a \\b \" \\"]);
    assert!(parse_quoted_args("foo 'bar \"baz").is_err());
    assert!(parse_quoted_args("foo \"bar baz").is_err());
    assert!(parse_quoted_args("foo \"bar 'baz").is_err());
    assert!(parse_quoted_args("foo \\").is_err());
    assert!(parse_quoted_args("foo 'bar\\").is_err());
    // the exact error texts
    assert_eq!(parse_quoted_args("foo \\"), Err("Unfinished trailing escape"));
    assert_eq!(parse_quoted_args("foo \"bar"), Err("Unclosed trailing quote"));
}
