use bbs_core::error::{CustomError, INTERNAL_SERVER_ERROR};

#[test]
fn internal_failure_answers_500_and_says_nothing() {
    let failure = CustomError::new("connection pool timed out".to_owned());
    assert_eq!(failure.status_code(), 500);
    assert_eq!(INTERNAL_SERVER_ERROR, 500);
    assert_eq!(failure.content_type(), "text/html; charset=utf-8");
    assert_eq!(failure.body(), "INTERNAL SERVER ERROR");
    assert_eq!(failure.message(), "connection pool timed out");
    let other = CustomError::new(String::new());
    assert_eq!(other.status_code(), failure.status_code());
    assert_eq!(other.body(), failure.body());
}
