use invok::catalog::FunctionRecord;
use invok::errors::Error;
use invok::surface::{
    accumulate_chunks, bundle_name, function_summaries, invalid_namespace_reply, is_bundle_file,
    login_failure_reply, register_failure_reply, upload_reply, validate_registration, UploadEvent,
};

#[test]
fn only_zip_fields_are_bundles() {
    assert!(is_bundle_file("hello.zip"));
    assert!(!is_bundle_file("hello.tar"));
    assert!(!is_bundle_file("zip"));
    assert_eq!(bundle_name("hello.zip"), "hello");
    assert_eq!(bundle_name("a.b.zip"), "a.b");
}

#[test]
fn chunks_within_the_cap_are_buffered() {
    let chunks = vec![vec![1u8, 2, 3], vec![4u8, 5]];
    assert_eq!(accumulate_chunks(&chunks, 5), Some(vec![1, 2, 3, 4, 5]));
    assert_eq!(accumulate_chunks(&Vec::new(), 0), Some(Vec::new()));
}

#[test]
fn oversized_upload_is_refused_with_500_and_nothing_deployed() {
    let chunks = vec![vec![0u8; 4], vec![0u8; 4]];
    // one byte over the cap: the bundle never reaches the deploy step
    assert_eq!(accumulate_chunks(&chunks, 7), None);
    let (status, body) = upload_reply(UploadEvent::TooLarge { max_size: 7 });
    assert_eq!(status, 500);
    assert_eq!(body, "Error reading file: File too large, maximum size is 7 bytes");
}

#[test]
fn upload_replies() {
    let (status, body) = upload_reply(UploadEvent::NoBundleField);
    assert_eq!((status, body.as_str()), (400, "Unexpected request"));
    let (status, body) = upload_reply(UploadEvent::Deployed {
        message: String::from("Function 'hello' deployed successfully"),
    });
    assert_eq!(status, 200);
    assert!(body.contains("Function 'hello' deployed successfully"));
    let (status, body) = upload_reply(UploadEvent::DeployFailed {
        error: Error::BadFunction(String::from("missing environment configuration")),
    });
    assert_eq!(status, 500);
    assert_eq!(
        body,
        "Failed to deploy function: Bad function: missing environment configuration"
    );
}

#[test]
fn broken_upload_reads_carry_the_detail() {
    let (status, body) = upload_reply(UploadEvent::ReadFailed {
        detail: String::from("connection reset"),
    });
    assert_eq!(status, 500);
    assert_eq!(body, "Error reading file: connection reset");
}

#[test]
fn bad_namespace_is_a_400_naming_the_segment() {
    let (status, body) = invalid_namespace_reply("not-a-uuid");
    assert_eq!(status, 400);
    assert_eq!(body, "Invalid function namespace: not-a-uuid");
}

#[test]
fn list_rows_mirror_the_catalog() {
    let rows = vec![FunctionRecord {
        uuid: String::from("f-1"),
        name: String::from("hello"),
        runtime: String::from("go"),
        owner_uuid: String::from("123e4567-e89b-12d3-a456-426614174000"),
    }];
    let summaries = function_summaries(&rows);
    assert_eq!(summaries.len(), 1);
    assert_eq!(summaries[0].uuid, "f-1");
    assert_eq!(summaries[0].name, "hello");
    assert_eq!(summaries[0].runtime, "go");
}

#[test]
fn registration_rules() {
    assert_eq!(
        validate_registration("", "longenough"),
        Some((400, String::from("Email and password are required")))
    );
    assert_eq!(
        validate_registration("a@b.c", ""),
        Some((400, String::from("Email and password are required")))
    );
    assert_eq!(
        validate_registration("a@b.c", "short"),
        Some((400, String::from("Password must be at least 6 characters")))
    );
    assert_eq!(validate_registration("a@b.c", "longenough"), None);
}

#[test]
fn auth_store_failure_replies() {
    assert_eq!(
        register_failure_reply(true),
        (409, String::from("Email already registered"))
    );
    assert_eq!(
        register_failure_reply(false),
        (500, String::from("Failed to register user"))
    );
    assert_eq!(
        login_failure_reply(true),
        (401, String::from("Invalid credentials"))
    );
    assert_eq!(
        login_failure_reply(false),
        (500, String::from("Failed to authenticate user"))
    );
}
