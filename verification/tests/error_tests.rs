use portfolio_api::error::ApiError;

#[test]
fn error_codes_statuses_and_messages() {
    let nf = ApiError::SectionNotFound("ABOUT");
    assert_eq!(nf.code(), "section_not_found");
    assert_eq!(nf.status_code(), 404);
    assert!(!nf.is_server_error());
    assert_eq!(nf.message(), "section 'ABOUT' not found");

    let dy = ApiError::Dynamo("timeout".to_string());
    assert_eq!(dy.code(), "dynamo_error");
    assert_eq!(dy.status_code(), 500);
    assert!(dy.is_server_error());
    assert_eq!(dy.message(), "dynamodb error: timeout");

    let de = ApiError::Deserialize("bad".to_string());
    assert_eq!(de.code(), "deserialize_error");
    assert_eq!(de.status_code(), 500);
    assert_eq!(de.message(), "deserialization error: bad");

    let body = nf.error_body();
    assert_eq!(body.code, "section_not_found");
    assert_eq!(body.message, "section 'ABOUT' not found");
}
