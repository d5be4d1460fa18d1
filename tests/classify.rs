use gallery_downloader::error::{DownloadError, IoKind, RequestKind, VerifyFailure};

fn request(kind: RequestKind) -> DownloadError {
    DownloadError::Request { kind, detail: String::from("request failed") }
}

fn io(kind: IoKind, raw_os_error: Option<i32>) -> DownloadError {
    DownloadError::Io { kind, raw_os_error, detail: String::from("io failed") }
}

#[test]
fn server_errors_are_retryable() {
    for code in [500u16, 502, 503, 599] {
        assert!(request(RequestKind::Status(code)).is_retryable(), "status {}", code);
    }
}

#[test]
fn client_errors_are_final_except_429() {
    for code in [400u16, 401, 403, 404, 410, 499] {
        assert!(!request(RequestKind::Status(code)).is_retryable(), "status {}", code);
    }
    assert!(request(RequestKind::Status(429)).is_retryable());
}

#[test]
fn other_statuses_are_final() {
    assert!(!request(RequestKind::Status(302)).is_retryable());
    assert!(!request(RequestKind::Status(600)).is_retryable());
}

#[test]
fn timeouts_and_connect_failures_are_retryable() {
    assert!(request(RequestKind::Timeout).is_retryable());
    assert!(request(RequestKind::Connect).is_retryable());
    assert!(!request(RequestKind::Other).is_retryable());
}

#[test]
fn disk_full_is_final_whatever_the_kind() {
    for kind in [IoKind::Interrupted, IoKind::TimedOut, IoKind::ConnectionReset, IoKind::BrokenPipe, IoKind::Other] {
        assert!(!io(kind, Some(28)).is_retryable());
        assert!(!io(kind, Some(112)).is_retryable());
    }
}

#[test]
fn transient_io_is_retryable() {
    for kind in [
        IoKind::Interrupted,
        IoKind::TimedOut,
        IoKind::ConnectionReset,
        IoKind::ConnectionAborted,
        IoKind::BrokenPipe,
        IoKind::UnexpectedEof,
    ] {
        assert!(io(kind, None).is_retryable());
        assert!(io(kind, Some(104)).is_retryable());
    }
    assert!(!io(IoKind::Other, None).is_retryable());
}

#[test]
fn verification_failures_are_final() {
    assert!(!DownloadError::Verification(VerifyFailure::Missing).is_retryable());
    assert!(!DownloadError::Verification(VerifyFailure::TooSmall { size: 10 }).is_retryable());
    assert!(!DownloadError::Verification(VerifyFailure::NotImage).is_retryable());
}

#[test]
fn status_and_timeout_accessors() {
    assert_eq!(request(RequestKind::Status(404)).status(), Some(404));
    assert_eq!(request(RequestKind::Timeout).status(), None);
    assert_eq!(io(IoKind::Other, Some(28)).status(), None);
    assert!(request(RequestKind::Timeout).is_timeout());
    assert!(!request(RequestKind::Connect).is_timeout());
    assert!(!DownloadError::Verification(VerifyFailure::NotImage).is_timeout());
}

#[test]
fn messages() {
    assert_eq!(request(RequestKind::Timeout).message(), "Request error: request failed");
    assert_eq!(io(IoKind::Other, None).message(), "IO error: io failed");
    assert_eq!(
        DownloadError::Verification(VerifyFailure::Missing).message(),
        "Verification failed: file does not exist"
    );
    assert_eq!(
        DownloadError::Verification(VerifyFailure::NotImage).message(),
        "Verification failed: file is not a valid image"
    );
    assert_eq!(
        DownloadError::Verification(VerifyFailure::TooSmall { size: 512 }).message(),
        "Verification failed: file too small (512 bytes)"
    );
}
