use vitanote_store::envelope::ApiResponse;
use vitanote_store::envelope::StoreError;
use vitanote_store::payloads::ChatRequest;
use vitanote_store::payloads::FileResult;
use vitanote_store::payloads::ImageData;
use vitanote_store::payloads::Suggestion;
use vitanote_store::payloads::UserData;

#[test]
fn failure_envelope_carries_the_error_message() {
    let resp: ApiResponse<String> = ApiResponse::failure(&StoreError::StorageUnavailable);
    assert!(!resp.success);
    assert_eq!(resp.data, None);
    assert_eq!(resp.message.as_deref(), Some("storage unavailable"));
    let resp: ApiResponse<i64> = ApiResponse::failure(&StoreError::ConstraintViolation);
    assert_eq!(resp.message.as_deref(), Some("constraint violation"));
    let resp: ApiResponse<i64> = ApiResponse::failure(&StoreError::QueryError);
    assert_eq!(resp.message.as_deref(), Some("query error"));
}

#[test]
fn success_envelope_wraps_the_payload() {
    let resp = ApiResponse::ok(7i64);
    assert!(resp.success);
    assert_eq!(resp.data, Some(7));
    assert_eq!(resp.message, None);
}

#[test]
fn payload_shapes_hold_their_fields() {
    let u = UserData {
        id: "u1".to_owned(),
        user_name: "alice".to_owned(),
        email: "a@example.com".to_owned(),
        phone_number: None,
    };
    assert_eq!(u.user_name, "alice");
    let req = ChatRequest {
        message: "how is my glucose trending?".to_owned(),
        health_record_id: Some("g1".to_owned()),
        include_history: true,
    };
    assert!(req.include_history);
    let s = Suggestion {
        kind: "diet".to_owned(),
        title: "more fiber".to_owned(),
        description: "add vegetables to lunch".to_owned(),
    };
    assert_eq!(s.kind, "diet");
    let img = ImageData {
        base64: "aGk=".to_owned(),
        mime_type: "image/png".to_owned(),
        width: 640,
        height: 480,
    };
    assert_eq!((img.width, img.height), (640, 480));
    let f = FileResult { path: "uploads/a.txt".to_owned(), name: "a.txt".to_owned(), size: 12 };
    assert_eq!(f.size, 12);
}
