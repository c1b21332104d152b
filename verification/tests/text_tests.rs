use invok::text::{
    parse_u16, parse_usize, replace_all, str_ends_with, str_eq, str_starts_with, to_ascii_lower,
    to_camel_case_handler, u16_to_string, usize_to_string,
};

#[test]
fn test_to_camel_case_handler() {
    assert_eq!(to_camel_case_handler("hello-world"), "HelloWorldHandler");
    assert_eq!(to_camel_case_handler("hello"), "HelloHandler");
    assert_eq!(
        to_camel_case_handler("hello-world-again"),
        "HelloWorldAgainHandler"
    );
}

#[test]
fn camel_case_edge_cases() {
    assert_eq!(to_camel_case_handler(""), "Handler");
    assert_eq!(to_camel_case_handler("-"), "Handler");
    assert_eq!(to_camel_case_handler("a--b"), "ABHandler");
    assert_eq!(to_camel_case_handler("already-Upper"), "AlreadyUpperHandler");
}

#[test]
fn replace_all_single_and_repeated() {
    assert_eq!(replace_all("x {{A}} y", "{{A}}", "v"), "x v y");
    assert_eq!(replace_all("{{A}}{{A}}", "{{A}}", "v"), "vv");
    assert_eq!(replace_all("none here", "{{A}}", "v"), "none here");
    assert_eq!(replace_all("aaa", "aa", "b"), "ba");
}

#[test]
fn lowercase_and_predicates() {
    assert_eq!(to_ascii_lower("Transfer-Encoding"), "transfer-encoding");
    assert!(str_starts_with("Bearer abc", "Bearer "));
    assert!(!str_starts_with("bearer abc", "Bearer "));
    assert!(str_ends_with("bundle.zip", ".zip"));
    assert!(!str_ends_with("bundle.tar", ".zip"));
    assert!(str_eq("same", "same"));
    assert!(!str_eq("same", "sane"));
}

#[test]
fn decimal_parsing() {
    assert_eq!(parse_u16("3000"), Some(3000));
    assert_eq!(parse_u16("+8080"), Some(8080));
    assert_eq!(parse_u16("65535"), Some(65535));
    assert_eq!(parse_u16("65536"), None);
    assert_eq!(parse_u16(""), None);
    assert_eq!(parse_u16("+"), None);
    assert_eq!(parse_u16("80a"), None);
    assert_eq!(parse_u16("-1"), None);
    assert_eq!(parse_usize("10485760"), Some(10485760));
    assert_eq!(parse_usize("ten"), None);
}

#[test]
fn decimal_printing() {
    assert_eq!(u16_to_string(0), "0");
    assert_eq!(u16_to_string(8080), "8080");
    assert_eq!(u16_to_string(65535), "65535");
    assert_eq!(usize_to_string(10485760), "10485760");
}
