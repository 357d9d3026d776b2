use minimal_browser::search::{navigation_target, percent_encode};
use minimal_browser::text::{str_chars, chars_to_string};

#[test]
fn bare_domain_gets_https() {
    assert_eq!(
        navigation_target("example.com"),
        Some(String::from("https://example.com"))
    );
}

#[test]
fn explicit_scheme_is_kept() {
    assert_eq!(
        navigation_target("http://example.com"),
        Some(String::from("http://example.com"))
    );
    assert_eq!(
        navigation_target("https://example.com/a?b=c"),
        Some(String::from("https://example.com/a?b=c"))
    );
}

#[test]
fn words_become_a_search() {
    assert_eq!(
        navigation_target("hello world"),
        Some(String::from("https://duckduckgo.com/?q=hello%20world"))
    );
}

#[test]
fn empty_input_is_ignored() {
    assert_eq!(navigation_target(""), None);
}

#[test]
fn whitespace_only_input_is_ignored() {
    assert_eq!(navigation_target("   \t  \n "), None);
}

#[test]
fn input_is_trimmed_before_classifying() {
    assert_eq!(
        navigation_target("  example.com  "),
        Some(String::from("https://example.com"))
    );
}

#[test]
fn dot_with_space_is_a_search() {
    assert_eq!(
        navigation_target("my file.txt here"),
        Some(String::from("https://duckduckgo.com/?q=my%20file.txt%20here"))
    );
}

#[test]
fn reserved_ascii_is_escaped() {
    assert_eq!(
        navigation_target("a+b&c"),
        Some(String::from("https://duckduckgo.com/?q=a%2Bb%26c"))
    );
}

#[test]
fn multibyte_characters_use_utf8_escapes() {
    let q = str_chars("caf\u{e9}");
    let enc = percent_encode(&q);
    assert_eq!(chars_to_string(&enc), String::from("caf%C3%A9"));
}

#[test]
fn unreserved_marks_pass_through() {
    let q = str_chars("A9z-_.!~*'()");
    let enc = percent_encode(&q);
    assert_eq!(chars_to_string(&enc), String::from("A9z-_.!~*'()"));
}

#[test]
fn chars_round_trip_through_string() {
    let v = str_chars("h\u{e9}llo");
    assert_eq!(chars_to_string(&v), String::from("h\u{e9}llo"));
}
