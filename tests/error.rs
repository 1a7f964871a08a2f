use victorops::Error;

#[test]
fn test_error_display() {
    let api_error = Error::Api {
        status: 404,
        message: "Not found".to_string(),
    };
    assert_eq!(api_error.message(), "API error: 404 - Not found");

    let auth_error = Error::Authentication;
    assert_eq!(auth_error.message(), "Authentication failed");

    let not_found_error = Error::NotFound;
    assert_eq!(not_found_error.message(), "Resource not found");

    let invalid_input_error = Error::InvalidInput("Bad data".to_string());
    assert_eq!(invalid_input_error.message(), "Invalid input: Bad data");
}

#[test]
fn test_error_debug() {
    let api_error = Error::Api {
        status: 500,
        message: "Internal error".to_string(),
    };
    let debug_str = format!("{:?}", api_error);
    assert!(debug_str.contains("Api"));
    assert!(debug_str.contains("500"));
}

#[test]
fn error_messages_of_wrapped_failures() {
    assert_eq!(Error::Http("timed out".to_string()).message(), "HTTP request failed: timed out");
    assert_eq!(
        Error::Json("expected value".to_string()).message(),
        "JSON serialization/deserialization failed: expected value"
    );
    assert_eq!(Error::UrlParse("empty host".to_string()).message(), "URL parsing failed: empty host");
    assert_eq!(
        Error::InvalidHeaderValue("failed to parse header value".to_string()).message(),
        "Invalid header value: failed to parse header value"
    );
    let zero = Error::Api { status: 0, message: String::new() };
    assert_eq!(zero.message(), "API error: 0 - ");
}
