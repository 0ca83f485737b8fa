use header_bindgen::symbols::link_symbol;
use header_bindgen::symbols::proxy_symbol;
use header_bindgen::text::dec_string;
use header_bindgen::text::escape_backslashes;
use header_bindgen::text::hex_string;
use header_bindgen::text::join;
use header_bindgen::text::split_lines;

#[test]
fn prefixed_platform_family_strips_the_leading_character() {
    assert_eq!(link_symbol("_Z3foov", true), "Z3foov");
}

#[test]
fn plain_platform_family_keeps_the_mangled_name_unchanged() {
    assert_eq!(link_symbol("_Z3foov", false), "_Z3foov");
    assert_eq!(link_symbol("?foo@@YAXXZ", false), "?foo@@YAXXZ");
}

#[test]
fn proxy_symbols_are_an_underscore_and_hex_digits() {
    assert_eq!(proxy_symbol(0), "_0");
    assert_eq!(proxy_symbol(255), "_ff");
    assert_eq!(proxy_symbol(0xdeadbeef), "_deadbeef");
}

#[test]
fn decimal_rendering_is_exact() {
    assert_eq!(dec_string(0), "0");
    assert_eq!(dec_string(7), "7");
    assert_eq!(dec_string(120), "120");
    assert_eq!(dec_string(18446744073709551615), "18446744073709551615");
}

#[test]
fn hex_rendering_is_exact() {
    assert_eq!(hex_string(0), "0");
    assert_eq!(hex_string(16), "10");
    assert_eq!(hex_string(3735928559), "deadbeef");
}

#[test]
fn comment_text_splits_into_one_line_per_newline() {
    assert_eq!(split_lines("one\ntwo"), vec!["one".to_string(), "two".to_string()]);
    assert_eq!(split_lines("solo"), vec!["solo".to_string()]);
    assert_eq!(split_lines(""), vec!["".to_string()]);
    assert_eq!(
        split_lines("a\n\nb\n"),
        vec!["a".to_string(), "".to_string(), "b".to_string(), "".to_string()]
    );
}

#[test]
fn backslashes_are_doubled_for_quoted_paths() {
    assert_eq!(escape_backslashes("C:\\include\\h.h"), "C:\\\\include\\\\h.h");
    assert_eq!(escape_backslashes("/usr/include/h.h"), "/usr/include/h.h");
}

#[test]
fn join_places_the_separator_between_neighbours() {
    let parts: Vec<String> = vec![];
    assert_eq!(join(&parts, ", "), "");
    let parts = vec!["a".to_string()];
    assert_eq!(join(&parts, ", "), "a");
    let parts = vec!["a".to_string(), "b".to_string(), "c".to_string()];
    assert_eq!(join(&parts, ", "), "a, b, c");
}
