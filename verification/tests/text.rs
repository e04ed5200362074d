use reddit_save_bot::text::{chars_of, i64_to_string, str_contains, str_eq, u64_to_string};

#[test]
fn unsigned_numbers_render_in_decimal() {
    assert_eq!(u64_to_string(0), "0");
    assert_eq!(u64_to_string(7), "7");
    assert_eq!(u64_to_string(10), "10");
    assert_eq!(u64_to_string(52428801), "52428801");
    assert_eq!(u64_to_string(u64::MAX), "18446744073709551615");
}

#[test]
fn signed_numbers_render_in_decimal() {
    assert_eq!(i64_to_string(0), "0");
    assert_eq!(i64_to_string(42), "42");
    assert_eq!(i64_to_string(-1), "-1");
    assert_eq!(i64_to_string(-100123), "-100123");
    assert_eq!(i64_to_string(i64::MAX), "9223372036854775807");
    assert_eq!(i64_to_string(i64::MIN), "-9223372036854775808");
}

#[test]
fn rendering_agrees_with_the_standard_formatting() {
    for n in [1i64, -9, 99, -100, 1234567890, -987654321012] {
        assert_eq!(i64_to_string(n), n.to_string());
    }
    for n in [9u64, 19, 100, 999, 1000, 50 * 1024 * 1024] {
        assert_eq!(u64_to_string(n), n.to_string());
    }
}

#[test]
fn strings_compare_by_their_characters() {
    assert!(str_eq("/start", "/start"));
    assert!(str_eq("", ""));
    assert!(!str_eq("/start", "/start "));
    assert!(!str_eq("/start", "/Start"));
    assert!(!str_eq("", "x"));
}

#[test]
fn characters_come_out_in_order() {
    assert_eq!(chars_of(""), Vec::<char>::new());
    assert_eq!(chars_of("abc"), vec!['a', 'b', 'c']);
    assert_eq!(chars_of("a\u{f1}b"), vec!['a', '\u{f1}', 'b']);
}

#[test]
fn substring_is_found_anywhere() {
    assert!(str_contains("reddit.com", "reddit.com"));
    assert!(str_contains("www.reddit.com", "reddit.com"));
    assert!(str_contains("reddit.com.evil.example", "reddit.com"));
    assert!(str_contains("notreddit.com.evil.example", "reddit.com"));
    assert!(str_contains("abc", ""));
    assert!(str_contains("", ""));
}

#[test]
fn substring_is_not_found_where_it_is_not() {
    assert!(!str_contains("example.com", "reddit.com"));
    assert!(!str_contains("reddit.co", "reddit.com"));
    assert!(!str_contains("reddit.cam", "reddit.com"));
    assert!(!str_contains("redditcom", "reddit.com"));
    assert!(!str_contains("", "reddit.com"));
    assert!(!str_contains("Reddit.com", "reddit.com"));
}

#[test]
fn substring_search_agrees_with_the_standard_one() {
    let hays = ["", "a", "aa", "aab", "abab", "r\u{e9}ddit", "xxreddit.comxx"];
    let needles = ["", "a", "ab", "b", "bab", "\u{e9}d", "reddit.com", "aaa"];
    for hay in hays {
        for needle in needles {
            assert_eq!(str_contains(hay, needle), hay.contains(needle));
        }
    }
}
