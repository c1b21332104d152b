use invok::errors::{Error, ServelessCoreError};

#[test]
fn every_error_variant_maps_to_its_reply() {
    let (status, body) = Error::FunctionNotRegistered(String::from("hello")).to_http_response();
    assert_eq!((status, body.as_str()), (404, "Function not found: hello"));
    let (status, body) = Error::FunctionFailedToStart(String::from("hello")).to_http_response();
    assert_eq!((status, body.as_str()), (500, "Failed to start function: hello"));
    let (status, body) = Error::BadFunction(String::from("zip malformed")).to_http_response();
    assert_eq!((status, body.as_str()), (400, "Bad function: zip malformed"));
    let (status, body) = Error::SystemError(String::from("db timeout")).to_http_response();
    assert_eq!(status, 500);
    // the detail is logged, never shown
    assert_eq!(body, "This is on us and we are working on it");
    assert!(!body.contains("db timeout"));
}

#[test]
fn the_later_generation_maps_the_same_way() {
    let (status, body) =
        ServelessCoreError::FunctionNotRegistered(String::from("hello")).to_http_response();
    assert_eq!((status, body.as_str()), (404, "Function not found: hello"));
    let (status, body) =
        ServelessCoreError::SystemError(String::from("db timeout")).to_http_response();
    assert_eq!((status, body.as_str()), (500, "This is on us and we are working on it"));
}

#[test]
fn messages_show_the_detail_for_the_log() {
    assert_eq!(
        Error::SystemError(String::from("db timeout")).message(),
        "System error: db timeout"
    );
    assert_eq!(
        Error::FunctionNotRegistered(String::from("hello")).message(),
        "Function not found: hello"
    );
}
