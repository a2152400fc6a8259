//! Request-facing errors and their wire details.
//!
//! Every rejection of a webhook delivery carries a stable numeric
//! code, an HTTP status, and a human-readable message; the mapping
//! is fixed here.

use vstd::prelude::*;
use vstd::string::*;

verus! {

/// Why a webhook delivery was rejected.  All variants answer with a
/// client error except `UnhandledError`, which reports a failure of
/// the synchronization itself.
#[derive(Debug, Clone, PartialEq, Eq)]
pub enum ErrorCode {
    MissingEventHeader,
    InvalidSignature,
    InvalidUserAgent,
    MalformedEventHeader,
    UnsupportedEventHeader(String),
    MalformedEventBody(String),
    MalformedEventBodyField(String, String),
    UnhandledError(String),
}

/// The wire rendering of an [`ErrorCode`]: HTTP status, stable
/// machine-readable code, and message.
#[derive(Debug, Clone, PartialEq, Eq)]
pub struct ErrorCodeDetail {
    pub status_code: u16,
    pub internal_code: u32,
    pub message: String,
}

/// The `(status, internal code, message)` triple each error renders
/// to.
pub open spec fn spec_error_details(e: &ErrorCode) -> (u16, u32, Seq<char>) {
    match e {
        ErrorCode::MissingEventHeader => (400u16, 1u32, "Missing X-GitHub-Event header"@),
        ErrorCode::InvalidSignature => (400u16, 2u32, "Invalid X-Hub-Signature-256 signature"@),
        ErrorCode::InvalidUserAgent => (400u16, 3u32, "Invalid User-Agent"@),
        ErrorCode::MalformedEventHeader => (400u16, 4u32, "Malformed event header"@),
        ErrorCode::UnsupportedEventHeader(event) => (
            400u16,
            5u32,
            "Unsupported event header: '"@ + event@ + "'"@,
        ),
        ErrorCode::MalformedEventBody(cause) => (
            400u16,
            6u32,
            "Malformed event body: '"@ + cause@ + "'"@,
        ),
        ErrorCode::MalformedEventBodyField(field, cause) => (
            400u16,
            7u32,
            "Malformed event body field '"@ + field@ + "': '"@ + cause@ + "'"@,
        ),
        ErrorCode::UnhandledError(cause) => (500u16, 99u32, "Unhandled error: '"@ + cause@ + "'"@),
    }
}

impl ErrorCodeDetail {
    /// Builds a detail record as given.
    pub fn with_status_code(status_code: u16, internal_code: u32, message: String) -> (r: Self)
        ensures
            r.status_code == status_code,
            r.internal_code == internal_code,
            r.message == message,
    {
        Self { status_code, internal_code, message }
    }

    /// A client-error detail record.
    pub fn bad_request(internal_code: u32, message: String) -> (r: Self)
        ensures
            r.status_code == 400,
            r.internal_code == internal_code,
            r.message == message,
    {
        Self::with_status_code(400, internal_code, message)
    }

    /// A server-error detail record.
    pub fn server_error(internal_code: u32, message: String) -> (r: Self)
        ensures
            r.status_code == 500,
            r.internal_code == internal_code,
            r.message == message,
    {
        Self::with_status_code(500, internal_code, message)
    }

    /// The HTTP status to answer with.
    pub fn status_code(&self) -> (r: u16)
        ensures
            r == self.status_code,
    {
        self.status_code
    }

    /// The stable machine-readable code.
    pub fn internal_code(&self) -> (r: u32)
        ensures
            r == self.internal_code,
    {
        self.internal_code
    }
}

impl ErrorCode {
    /// Renders this error to its fixed wire detail.
    pub fn details(&self) -> (r: ErrorCodeDetail)
        ensures
            r.status_code == spec_error_details(self).0,
            r.internal_code == spec_error_details(self).1,
            r.message@ == spec_error_details(self).2,
    {
        match self {
            ErrorCode::MissingEventHeader => ErrorCodeDetail::bad_request(
                1,
                String::from_str("Missing X-GitHub-Event header"),
            ),
            ErrorCode::InvalidSignature => ErrorCodeDetail::bad_request(
                2,
                String::from_str("Invalid X-Hub-Signature-256 signature"),
            ),
            ErrorCode::InvalidUserAgent => ErrorCodeDetail::bad_request(
                3,
                String::from_str("Invalid User-Agent"),
            ),
            ErrorCode::MalformedEventHeader => ErrorCodeDetail::bad_request(
                4,
                String::from_str("Malformed event header"),
            ),
            ErrorCode::UnsupportedEventHeader(event) => {
                let mut m = String::from_str("Unsupported event header: '");
                m.append(event.as_str());
                m.append("'");
                ErrorCodeDetail::bad_request(5, m)
            },
            ErrorCode::MalformedEventBody(cause) => {
                let mut m = String::from_str("Malformed event body: '");
                m.append(cause.as_str());
                m.append("'");
                ErrorCodeDetail::bad_request(6, m)
            },
            ErrorCode::MalformedEventBodyField(field, cause) => {
                let mut m = String::from_str("Malformed event body field '");
                m.append(field.as_str());
                m.append("': '");
                m.append(cause.as_str());
                m.append("'");
                ErrorCodeDetail::bad_request(7, m)
            },
            ErrorCode::UnhandledError(cause) => {
                let mut m = String::from_str("Unhandled error: '");
                m.append(cause.as_str());
                m.append("'");
                ErrorCodeDetail::server_error(99, m)
            },
        }
    }
}

} // verus!
