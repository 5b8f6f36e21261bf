use tsbind::resolve::{
    is_list_name, is_numeric_name, is_optional_name, is_string_name, list_inner_name,
    optional_inner_name, resolve, resolve_ts_type, returns_collection, Policy,
};
use tsbind::text::{
    char_len, concat_strings, contains, ends_with, join_strings, starts_with, str_eq, substring,
    to_chars,
};

#[test]
fn numeric_family_resolves_to_number() {
    for name in ["i8", "i16", "i32", "u8", "u16", "u32", "usize", "f32", "f64", "Color", "Rgb24"] {
        assert_eq!(resolve_ts_type(name, None), "number");
        assert!(is_numeric_name(name));
    }
    assert!(!is_numeric_name("i64"));
    assert!(!is_numeric_name("number"));
    assert!(!is_numeric_name(""));
}

#[test]
fn primitives_resolve_to_their_targets() {
    assert_eq!(resolve_ts_type("bool", None), "boolean");
    assert_eq!(resolve_ts_type("String", None), "string");
    assert_eq!(resolve_ts_type("str", None), "string");
    assert_eq!(resolve_ts_type("void", None), "void");
    assert!(is_string_name("String"));
    assert!(is_string_name("str"));
    assert!(!is_string_name("string"));
}

#[test]
fn self_resolves_to_the_enclosing_class() {
    assert_eq!(resolve_ts_type("Self", Some("Image")), "Image");
    assert_eq!(resolve_ts_type("Self", None), "any");
    assert_eq!(resolve("Self", None, Policy::Safe), "any");
    assert_eq!(resolve_ts_type("Option<Self>", Some("Image")), "Image | undefined");
    assert_eq!(resolve_ts_type("u8", Some("Image")), "number");
}

#[test]
fn optional_boolean_always_resolves_alike() {
    let first = resolve_ts_type("Option<bool>", None);
    resolve_ts_type("Vec<Image>", Some("Image"));
    resolve("Sprite", None, Policy::Safe);
    let second = resolve_ts_type("Option<bool>", None);
    assert_eq!(first, "boolean | undefined");
    assert_eq!(second, first);
    assert_eq!(resolve("Option<bool>", None, Policy::Safe), "boolean | undefined");
}

#[test]
fn wrappers_resolve_their_inner_type() {
    assert_eq!(resolve_ts_type("Vec<Image>", None), "ImageList");
    assert_eq!(resolve_ts_type("Vec<u8>", None), "numberList");
    assert_eq!(resolve_ts_type("Option<Vec<u8>>", None), "numberList | undefined");
    assert_eq!(resolve_ts_type("Vec<Option<str>>", None), "string | undefinedList");
    assert_eq!(resolve_ts_type("Option<>", None), " | undefined");
    assert_eq!(resolve_ts_type("Vec<>", None), "List");
    assert_eq!(resolve_ts_type("Option<", None), "Option<");
    assert_eq!(resolve_ts_type("Option<u8", None), "Option<u8");
    assert_eq!(resolve_ts_type("Vec>", None), "Vec>");
}

#[test]
fn unknown_names_go_by_the_policy() {
    assert_eq!(resolve("Image", None, Policy::PassThrough), "Image");
    assert_eq!(resolve("Image", None, Policy::Safe), "any");
    assert_eq!(resolve("i64", None, Policy::PassThrough), "i64");
    assert_eq!(resolve("i64", None, Policy::Safe), "any");
    assert_eq!(resolve("", None, Policy::PassThrough), "");
    assert_eq!(resolve("Option<Image>", None, Policy::Safe), "any | undefined");
    assert_eq!(resolve("Vec<Image>", None, Policy::Safe), "anyList");
    assert_eq!(resolve("u8", None, Policy::Safe), "number");
}

#[test]
fn wrapper_names_are_told_apart() {
    assert!(is_optional_name("Option<bool>"));
    assert!(is_optional_name("Option<>"));
    assert!(!is_optional_name("Option<"));
    assert!(!is_optional_name("option<bool>"));
    assert!(!is_optional_name("Vec<bool>"));
    assert!(is_list_name("Vec<u8>"));
    assert!(is_list_name("Vec<>"));
    assert!(!is_list_name("Vec<"));
    assert!(!is_list_name("Option<u8>"));
    assert_eq!(optional_inner_name("Option<bool>"), Some("bool".to_string()));
    assert_eq!(optional_inner_name("Option<Option<u8>>"), Some("Option<u8>".to_string()));
    assert_eq!(optional_inner_name("Option<"), None);
    assert_eq!(optional_inner_name("Vec<u8>"), None);
    assert_eq!(list_inner_name("Vec<Image>"), Some("Image".to_string()));
    assert_eq!(list_inner_name("Vec<>"), Some(String::new()));
    assert_eq!(list_inner_name("Vec"), None);
}

#[test]
fn collection_return_types_end_in_list() {
    assert!(returns_collection("ImageList"));
    assert!(returns_collection("Vec<Image>"));
    assert!(returns_collection("List"));
    assert!(!returns_collection("Image"));
    assert!(!returns_collection("u8"));
    assert!(!returns_collection("void"));
    assert!(!returns_collection("Option<Vec<u8>>"));
}

#[test]
fn strings_compare_by_their_characters() {
    assert!(str_eq("", ""));
    assert!(str_eq("void", "void"));
    assert!(!str_eq("void", "Void"));
    assert!(!str_eq("void", "voi"));
    assert!(!str_eq("voi", "void"));
    assert!(str_eq("h\u{e9}llo", "h\u{e9}llo"));
    assert!(!str_eq("h\u{e9}llo", "hello"));
    assert_eq!(to_chars("a\u{e9}b"), vec!['a', '\u{e9}', 'b']);
    assert_eq!(to_chars(""), Vec::<char>::new());
    assert_eq!(char_len("h\u{e9}llo"), 5);
    assert_eq!(char_len(""), 0);
}

#[test]
fn prefixes_and_suffixes_are_found() {
    assert!(starts_with("Option<bool>", "Option<"));
    assert!(starts_with("abc", ""));
    assert!(starts_with("abc", "abc"));
    assert!(!starts_with("abc", "abcd"));
    assert!(!starts_with("abc", "b"));
    assert!(starts_with("h\u{e9}llo", "h\u{e9}"));
    assert!(ends_with("ImageList", "List"));
    assert!(ends_with("abc", ""));
    assert!(ends_with("abc", "abc"));
    assert!(!ends_with("abc", "zabc"));
    assert!(!ends_with("Listing", "List"));
    assert!(ends_with("caf\u{e9}", "f\u{e9}"));
}

#[test]
fn occurrences_are_found_anywhere() {
    assert!(contains("await _fns.load(x);", "_fns.load("));
    assert!(contains("abc", ""));
    assert!(contains("", ""));
    assert!(contains("abc", "abc"));
    assert!(contains("abc", "c"));
    assert!(contains("abc", "a"));
    assert!(!contains("abc", "abcd"));
    assert!(!contains("", "a"));
    assert!(!contains("abab", "bb"));
    assert!(contains("aab", "ab"));
}

#[test]
fn substrings_count_characters() {
    assert_eq!(substring("h\u{e9}llo", 1, 3), "\u{e9}l");
    assert_eq!(substring("hello", 0, 5), "hello");
    assert_eq!(substring("hello", 2, 2), "");
    assert_eq!(substring("Option<bool>", 7, 11), "bool");
}

#[test]
fn parts_are_joined_and_concatenated() {
    let none: Vec<String> = vec![];
    let one = vec!["a".to_string()];
    let three = vec!["a".to_string(), "".to_string(), "c".to_string()];
    assert_eq!(join_strings(&none, ", "), "");
    assert_eq!(join_strings(&one, ", "), "a");
    assert_eq!(join_strings(&three, ", "), "a, , c");
    assert_eq!(join_strings(&three, ""), "ac");
    assert_eq!(concat_strings(&none), "");
    assert_eq!(concat_strings(&three), "ac");
}
