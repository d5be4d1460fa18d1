//! Failures of one download attempt, and whether another attempt can help.
use vstd::prelude::*;

verus! {

/// OS error code for a full disk on Linux and macOS (`ENOSPC`).
pub const ENOSPC: i32 = 28;

/// OS error code for a full disk on Windows (`ERROR_DISK_FULL`).
pub const ERROR_DISK_FULL: i32 = 112;

/// HTTP 429 Too Many Requests.
pub const TOO_MANY_REQUESTS: u16 = 429;

/// What went wrong with an HTTP request.
#[derive(Debug, Clone, Copy, PartialEq, Eq, Structural)]
pub enum RequestKind {
    /// The request timed out.
    Timeout,
    /// No connection to the server could be made.
    Connect,
    /// The server answered with a status outside 2xx.
    Status(u16),
    /// Anything else (a malformed URL, a body that could not be decoded, ...).
    Other,
}

/// What went wrong while writing the response to disk.
#[derive(Debug, Clone, Copy, PartialEq, Eq, Structural)]
pub enum IoKind {
    Interrupted,
    TimedOut,
    ConnectionReset,
    ConnectionAborted,
    BrokenPipe,
    UnexpectedEof,
    Other,
}

/// Why a downloaded file was rejected.
#[derive(Debug, Clone, Copy, PartialEq, Eq, Structural)]
pub enum VerifyFailure {
    /// The file is not on disk.
    Missing,
    /// The file holds fewer bytes than an image can.
    TooSmall { size: u64 },
    /// The file does not start with a known image signature.
    NotImage,
}

/// A failed download attempt, in one of three domains.
#[derive(Debug, Clone)]
pub enum DownloadError {
    /// The HTTP layer failed; `detail` is the client's own description.
    Request { kind: RequestKind, detail: String },
    /// The file system failed; `raw_os_error` is the OS code when there is one.
    Io { kind: IoKind, raw_os_error: Option<i32>, detail: String },
    /// The content on disk is not an acceptable image.
    Verification(VerifyFailure),
}

/// A server error: a status in 500..=599.
pub open spec fn is_server_error(code: u16) -> bool {
    500 <= code && code <= 599
}

/// The OS reports the disk as full.
pub open spec fn is_disk_full(raw: Option<i32>) -> bool {
    raw == Some(ENOSPC) || raw == Some(ERROR_DISK_FULL)
}

/// I/O failures that a later attempt may not meet again.
pub open spec fn is_transient_io(kind: IoKind) -> bool {
    match kind {
        IoKind::Other => false,
        _ => true,
    }
}

/// The retry rule: which failures are worth another attempt.
pub open spec fn retryable(e: DownloadError) -> bool {
    match e {
        DownloadError::Request { kind, .. } => match kind {
            RequestKind::Timeout | RequestKind::Connect => true,
            RequestKind::Status(code) => code == TOO_MANY_REQUESTS || is_server_error(code),
            RequestKind::Other => false,
        },
        DownloadError::Io { kind, raw_os_error, .. } => !is_disk_full(raw_os_error)
            && is_transient_io(kind),
        DownloadError::Verification(_) => false,
    }
}

/// The HTTP status that a failure carries, if any.
pub open spec fn status_of(e: DownloadError) -> Option<u16> {
    match e {
        DownloadError::Request { kind: RequestKind::Status(code), .. } => Some(code),
        _ => None,
    }
}

impl DownloadError {
    /// The request timed out.
    pub fn is_timeout(&self) -> (r: bool)
        ensures
            r == (*self matches DownloadError::Request { kind: RequestKind::Timeout, .. }),
    {
        match self {
            DownloadError::Request { kind: RequestKind::Timeout, .. } => true,
            _ => false,
        }
    }

    /// The HTTP status of the response that failed, if the server answered.
    pub fn status(&self) -> (r: Option<u16>)
        ensures
            r == status_of(*self),
    {
        match self {
            DownloadError::Request { kind: RequestKind::Status(code), .. } => Some(*code),
            _ => None,
        }
    }

    /// Whether another attempt may succeed where this one failed.
    pub fn is_retryable(&self) -> (r: bool)
        ensures
            r == retryable(*self),
    {
        match self {
            DownloadError::Request { kind, .. } => match kind {
                RequestKind::Timeout | RequestKind::Connect => true,
                RequestKind::Status(code) => {
                    if *code == TOO_MANY_REQUESTS {
                        return true;
                    }
                    500 <= *code && *code <= 599
                },
                RequestKind::Other => false,
            },
            DownloadError::Io { kind, raw_os_error, .. } => {
                // A full disk stays full: checked before the kind.
                if let Some(code) = raw_os_error {
                    if *code == ENOSPC || *code == ERROR_DISK_FULL {
                        return false;
                    }
                }
                match kind {
                    IoKind::Other => false,
                    _ => true,
                }
            },
            DownloadError::Verification(_) => false,
        }
    }
}

impl DownloadError {
    /// The text that reports this failure to a user.
    pub fn message(&self) -> (r: String)
        ensures
            match *self {
                DownloadError::Request { detail, .. } => r@ == "Request error: "@ + detail@,
                DownloadError::Io { detail, .. } => r@ == "IO error: "@ + detail@,
                DownloadError::Verification(VerifyFailure::Missing) => r@
                    == "Verification failed: file does not exist"@,
                DownloadError::Verification(VerifyFailure::NotImage) => r@
                    == "Verification failed: file is not a valid image"@,
                DownloadError::Verification(VerifyFailure::TooSmall { .. }) => r@.len()
                    >= "Verification failed: file too small ("@.len() && r@.subrange(
                    0,
                    "Verification failed: file too small ("@.len() as int,
                ) == "Verification failed: file too small ("@,
            },
    {
        match self {
            DownloadError::Request { detail, .. } => {
                String::from_str("Request error: ").concat(detail.as_str())
            },
            DownloadError::Io { detail, .. } => String::from_str("IO error: ").concat(detail.as_str()),
            DownloadError::Verification(VerifyFailure::Missing) => {
                String::from_str("Verification failed: file does not exist")
            },
            DownloadError::Verification(VerifyFailure::NotImage) => {
                String::from_str("Verification failed: file is not a valid image")
            },
            DownloadError::Verification(VerifyFailure::TooSmall { size }) => {
                let prefix = String::from_str("Verification failed: file too small (");
                let r = prefix.concat(size.to_string().as_str()).concat(" bytes)");
                proof {
                    let p = "Verification failed: file too small ("@;
                    assert(r@.subrange(0, p.len() as int) =~= p);
                }
                r
            },
        }
    }
}

/// Of every failure that carries an HTTP status: a server error (500..=599)
/// and 429 are worth another attempt; any other 4xx status never is.
pub proof fn lemma_status_retry(e: DownloadError)
    ensures
        (status_of(e) matches Some(c) && 500 <= c <= 599) ==> retryable(e),
        status_of(e) == Some(TOO_MANY_REQUESTS) ==> retryable(e),
        (status_of(e) matches Some(c) && 400 <= c <= 499 && c != 429) ==> !retryable(e),
{
}

/// A full disk (OS code 28 or 112) is never worth another attempt, whatever
/// kind of I/O failure reported it.
pub proof fn lemma_disk_full_final(kind: IoKind, raw_os_error: Option<i32>, detail: String)
    requires
        raw_os_error == Some(28i32) || raw_os_error == Some(112i32),
    ensures
        !retryable(DownloadError::Io { kind, raw_os_error, detail }),
{
}

/// A rejected file is never worth another attempt.
pub proof fn lemma_verification_final(reason: VerifyFailure)
    ensures
        !retryable(DownloadError::Verification(reason)),
{
}

} // verus!
