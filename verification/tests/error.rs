use reddit_youtube_bot::error::ApiError;

#[test]
fn each_failure_has_its_status_and_texts() {
    let cases = [
        (ApiError::AxumError("x".to_string()), 400u16, "Axum server start error: x", "Server error: x"),
        (ApiError::TcpListenerError("x".to_string()), 500, "TCP listener bind error: x", "Server error: x"),
        (ApiError::InternalError("x".to_string()), 500, "Internal server error: x", "Internal server error: x"),
        (ApiError::NotFound("x".to_string()), 404, "Not found error: x", "Not found error: x"),
        (ApiError::BadRequest("x".to_string()), 400, "Bad request error: x", "Bad request error: x"),
    ];
    for (error, status, message, body) in cases {
        assert_eq!(error.status_code(), status);
        assert_eq!(error.message(), message);
        assert_eq!(error.detail(), "x");
        assert_eq!(error.into_response(), (status, body.to_string()));
    }
}
