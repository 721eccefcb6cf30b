use datatable_backend::data_types::GenericError;
use datatable_backend::search::get_valid_search_strings;
use datatable_backend::string_ops::{
    get_sanitized_string, remove_leading_and_trailing_spaces, remove_leading_trailing_characters,
    replace_multiple_characters, sanitize_string, split_string,
};

#[test]
fn sanitize_keeps_allowed_characters_only() {
    assert_eq!(sanitize_string("a$b c!_./-@,#:;9"), "abc_./-@,#:;9");
    assert_eq!(sanitize_string(""), "");
    assert_eq!(sanitize_string("é'%"), "");
}

#[test]
fn trim_removes_outer_whitespace_only() {
    assert_eq!(remove_leading_and_trailing_spaces("  a b \t\n"), "a b");
    assert_eq!(remove_leading_and_trailing_spaces("   "), "");
    assert_eq!(remove_leading_and_trailing_spaces(""), "");
    assert_eq!(remove_leading_and_trailing_spaces("\u{3000}\u{a0}a\u{2028}\u{85}"), "a");
    assert_eq!(remove_leading_and_trailing_spaces("\u{200b}a"), "\u{200b}a");
}

#[test]
fn comma_trim_and_collapse() {
    assert_eq!(remove_leading_trailing_characters(",,a,b,,"), "a,b");
    assert_eq!(replace_multiple_characters("a,,,b,c,,"), "a,b,c,");
    assert_eq!(replace_multiple_characters(",,"), ",");
}

#[test]
fn regex_sanitizer_removes_unlisted_characters() {
    assert_eq!(get_sanitized_string("a$b c!-._@/,;:"), "ab c-._@/,;:");
    assert_eq!(get_sanitized_string("#x#"), "x");
}

#[test]
fn split_keeps_empty_pieces() {
    assert_eq!(split_string("a+b++c", '+'), vec!["a", "b", "", "c"]);
    assert_eq!(split_string("", '|'), vec![""]);
    assert_eq!(split_string("|", '|'), vec!["", ""]);
}

#[test]
fn or_search_splits_on_bar() {
    let d = get_valid_search_strings("abc|def").unwrap();
    assert_eq!(d.search_type, "or");
    assert_eq!(d.search_string, vec!["abc", "def"]);
}

#[test]
fn and_search_splits_on_plus_and_cleans_terms() {
    let d = get_valid_search_strings(" x y + 12'3 ").unwrap();
    assert_eq!(d.search_type, "and");
    assert_eq!(d.search_string, vec!["xy", "123"]);
}

#[test]
fn plain_search_is_one_or_term() {
    let d = get_valid_search_strings("  hello  ").unwrap();
    assert_eq!(d.search_type, "or");
    assert_eq!(d.search_string, vec!["hello"]);
}

#[test]
fn empty_search_is_one_empty_term() {
    let d = get_valid_search_strings("").unwrap();
    assert_eq!(d.search_type, "or");
    assert_eq!(d.search_string, vec![""]);
}

#[test]
fn mixed_delimiters_are_rejected() {
    let e = get_valid_search_strings("a+b|c").unwrap_err();
    assert_eq!(e.err_type, GenericError::InvalidInput);
    assert!(!e.err_msg.is_empty());
}
