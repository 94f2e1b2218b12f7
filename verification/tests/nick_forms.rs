//! Nick mention forms, normalization and the hue hash.

use euphoxide::cookies::CookieJar;
use euphoxide::nick::{hue_without_removing_emoji, is_non_whitespace_delimiter, mention, normalize};

#[test]
fn mention_strips_whitespace_and_punctuation() {
    assert_eq!(mention("Mr Bot"), "MrBot");
    assert_eq!(mention("a.b c!d"), "abcd");
    assert_eq!(mention("!boom!"), "boom");
    assert_eq!(mention(",a"), "a");
    assert_eq!(mention("   "), "");
    assert!(is_non_whitespace_delimiter('!'));
    assert!(!is_non_whitespace_delimiter('a'));
}

#[test]
fn normalize_compares_mentions_case_insensitively() {
    assert_eq!(normalize("Mr Bot"), "mrbot");
    assert_eq!(normalize("MRBOT"), "mrbot");
    // a nick and its mention form normalize to the same form
    assert_eq!(normalize(&mention("Mr Bot!")), normalize("Mr Bot!"));
    // compatibility normalization folds full-width characters
    assert_eq!(normalize("\u{ff21}"), "a");
}

#[test]
fn hue_hash_matches_known_values() {
    // the offset is tuned so this nick lands on this hue
    assert_eq!(hue_without_removing_emoji("greenie"), 148);
    // normalization ignores case and punctuation outside the allowed set
    assert_eq!(
        hue_without_removing_emoji("GREENIE"),
        hue_without_removing_emoji("greenie")
    );
    assert_eq!(
        hue_without_removing_emoji("gre enie"),
        hue_without_removing_emoji("greenie")
    );
    // a nick with nothing left after normalization hashes its raw form
    assert_eq!(hue_without_removing_emoji("!!!"), 82);
}

#[test]
fn cookie_jar_replays_stripped_cookies() {
    let mut jar = CookieJar::new();
    assert!(jar.add_set_cookie("a=1; Path=/; HttpOnly"));
    assert!(jar.add_set_cookie("b=2"));
    assert_eq!(jar.header(), "a=1; b=2");
    // the last observed value for a name wins
    assert!(jar.add_set_cookie("a=3"));
    assert_eq!(jar.header(), "a=3; b=2");
    // garbage lines change nothing
    assert!(!jar.add_set_cookie("no cookie here"));
    assert_eq!(jar.header(), "a=3; b=2");
}
