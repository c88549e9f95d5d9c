//! A closed taxonomy of upload-pipeline errors, so that callers can tell
//! retryable failures from fatal ones without matching on message text.

use vstd::prelude::*;
use vstd::string::StringExecFns;
use crate::text;

verus! {

/// Why an upload attempt or a session operation failed.
///
/// `AuthRevoked` is fatal: the session was cleared and the user must
/// re-authenticate. Every other kind is treated as retryable by the upload
/// client's bounded retry loop.
#[derive(Debug, Clone)]
pub enum UploadError {
    /// No session is stored.
    NotLoggedIn,
    /// The stored access-token expiry could not be parsed.
    InvalidExpiry,
    /// The refresh endpoint answered 401: the session is revoked.
    AuthRevoked,
    /// The refresh endpoint answered with another non-success status.
    RefreshFailed(u16),
    /// The transport failed; the carried text is the transport's message.
    Network(String),
    /// The upload endpoint answered a non-success status; the carried text
    /// is the response body.
    RemoteRejected(u16, String),
    /// The upload response body was not valid JSON.
    MalformedResponse,
    /// The upload response carried no replay identifier in any accepted
    /// field.
    MissingReplayId,
}

/// The user-facing message of an error.
pub open spec fn spec_message(e: UploadError) -> Seq<char> {
    match e {
        UploadError::NotLoggedIn => "Not logged in"@,
        UploadError::InvalidExpiry => "Invalid expiry date"@,
        UploadError::AuthRevoked => "Session revoked, please re-authorize"@,
        UploadError::RefreshFailed(status) => "Session refresh failed ("@ + text::dec_str(
            status as nat,
        ) + ")"@,
        UploadError::Network(m) => "Network error: "@ + m@,
        UploadError::RemoteRejected(status, body) => {
            if status == 401 {
                "Authentication expired"@
            } else if status == 413 {
                "File too large"@
            } else {
                "Upload failed ("@ + text::dec_str(status as nat) + "): "@ + body@
            }
        },
        UploadError::MalformedResponse => "Failed to parse response"@,
        UploadError::MissingReplayId => "No replay ID in response"@,
    }
}

impl UploadError {
    /// Render this error as its user-facing message.
    pub fn message(&self) -> (r: String)
        ensures
            r@ == spec_message(*self),
    {
        match self {
            UploadError::NotLoggedIn => String::from_str("Not logged in"),
            UploadError::InvalidExpiry => String::from_str("Invalid expiry date"),
            UploadError::AuthRevoked => String::from_str("Session revoked, please re-authorize"),
            UploadError::RefreshFailed(status) => {
                let mut s = String::from_str("Session refresh failed (");
                text::push_dec(&mut s, *status as u64);
                s.append(")");
                assert(s@ =~= spec_message(*self));
                s
            },
            UploadError::Network(m) => {
                let mut s = String::from_str("Network error: ");
                s.append(m.as_str());
                assert(s@ =~= spec_message(*self));
                s
            },
            UploadError::RemoteRejected(status, body) => {
                if *status == 401 {
                    String::from_str("Authentication expired")
                } else if *status == 413 {
                    String::from_str("File too large")
                } else {
                    let mut s = String::from_str("Upload failed (");
                    text::push_dec(&mut s, *status as u64);
                    s.append("): ");
                    s.append(body.as_str());
                    assert(s@ =~= spec_message(*self));
                    s
                }
            },
            UploadError::MalformedResponse => String::from_str("Failed to parse response"),
            UploadError::MissingReplayId => String::from_str("No replay ID in response"),
        }
    }
}

} // verus!
