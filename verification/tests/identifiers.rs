use capnpc_rust::ident::{
    camel_to_snake_case, camel_to_upper_case, capitalize_first_letter, is_alphanumeric_name,
};
use capnpc_rust::schema::tuple_option;

#[test]
fn test_camel_to_upper_case() {
    assert_eq!(camel_to_upper_case("fooBar"), "FOO_BAR".to_string());
    assert_eq!(camel_to_upper_case("fooBarBaz"), "FOO_BAR_BAZ".to_string());
    assert_eq!(camel_to_upper_case("helloWorld"), "HELLO_WORLD".to_string());
}

#[test]
fn test_camel_to_snake_case() {
    assert_eq!(camel_to_snake_case("fooBar"), "foo_bar".to_string());
    assert_eq!(camel_to_snake_case("fooBarBaz"), "foo_bar_baz".to_string());
    assert_eq!(camel_to_snake_case("helloWorld"), "hello_world".to_string());
    assert_eq!(camel_to_snake_case("uint32Id"), "uint32_id".to_string());
}

#[test]
fn snake_case_of_the_empty_name_is_empty() {
    assert_eq!(camel_to_snake_case(""), "".to_string());
    assert_eq!(camel_to_upper_case(""), "".to_string());
}

#[test]
fn snake_case_holds_only_lower_case_digits_and_underscores() {
    for name in ["fooBar", "UInt32Id", "A", "x9Y8", "already_snake".replace('_', "").as_str()] {
        assert!(is_alphanumeric_name(name));
        let snake = camel_to_snake_case(name);
        assert!(snake.chars().all(|c| c.is_ascii_lowercase() || c.is_ascii_digit() || c == '_'));
        let upper = camel_to_upper_case(name);
        assert!(upper.chars().all(|c| c.is_ascii_uppercase() || c.is_ascii_digit() || c == '_'));
    }
}

#[test]
fn a_leading_capital_gets_an_underscore_too() {
    assert_eq!(camel_to_snake_case("FooBar"), "_foo_bar".to_string());
    assert_eq!(camel_to_upper_case("FooBar"), "_FOO_BAR".to_string());
}

#[test]
fn names_with_other_characters_are_no_identifiers() {
    assert!(is_alphanumeric_name("fooBar9"));
    assert!(is_alphanumeric_name(""));
    assert!(!is_alphanumeric_name("foo-bar"));
    assert!(!is_alphanumeric_name("foo_bar"));
    assert!(!is_alphanumeric_name("caf\u{e9}"));
}

#[test]
fn capitalize_touches_only_the_first_letter() {
    assert_eq!(capitalize_first_letter("fooBar"), "FooBar".to_string());
    assert_eq!(capitalize_first_letter("x"), "X".to_string());
    assert_eq!(capitalize_first_letter("9lives"), "9lives".to_string());
    assert_eq!(capitalize_first_letter("aBC"), "ABC".to_string());
}

#[test]
fn capitalize_is_idempotent() {
    for name in ["fooBar", "FooBar", "x", "9a"] {
        let once = capitalize_first_letter(name);
        assert_eq!(capitalize_first_letter(once.as_str()), once);
    }
    assert_eq!(capitalize_first_letter("Already"), "Already".to_string());
}

#[test]
fn tuple_option_pairs_two_present_values() {
    assert_eq!(tuple_option(Some(1u8), Some("a")), Some((1u8, "a")));
    assert_eq!(tuple_option(None::<u8>, Some("a")), None);
    assert_eq!(tuple_option(Some(1u8), None::<&str>), None);
    assert_eq!(tuple_option(None::<u8>, None::<&str>), None);
}
