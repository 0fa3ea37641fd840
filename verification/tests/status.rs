//! Statuses.
use msquic_async::status::{Status, StatusCode};

#[test]
fn statuses_tell_what_they_stand_for() {
    let status = Status { raw: 86, ok: false, code: Some(StatusCode::StreamLimitReached) };
    assert!(!status.is_ok());
    assert_eq!(status.try_as_status_code(), Some(StatusCode::StreamLimitReached));
    assert!(status.has_code(StatusCode::StreamLimitReached));
    assert!(!status.has_code(StatusCode::Aborted));
    let unknown = Status { raw: 12345, ok: false, code: None };
    assert_eq!(unknown.try_as_status_code(), None);
    assert!(!unknown.has_code(StatusCode::Other));
    assert!(Status { raw: 0, ok: true, code: Some(StatusCode::Success) }.is_ok());
}
