//! The SDK's error type.

use vstd::prelude::*;

verus! {

/// Every way an SDK call can fail. Failures that come from the transport
/// (HTTP, JSON decoding, WebSocket) carry the transport's message.
#[derive(Debug, Clone, PartialEq)]
pub enum SdkError {
    /// The HTTP request itself failed.
    Http(String),
    /// A body could not be encoded or decoded as JSON.
    Serde(String),
    /// A form body could not be encoded.
    UrlEncoded(String),
    /// The call needs a token and none is set.
    MissingToken,
    /// The API answered with a business code other than 200.
    Api { code: i32, msg: String },
    /// The API answered with an unexpected HTTP status.
    Status { status: u16, body: String },
    /// The API answered 401: the token is invalid or expired.
    AuthFailed,
    /// The WebSocket connection failed.
    Ws(String),
}

} // verus!
