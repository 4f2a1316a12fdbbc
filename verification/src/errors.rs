//! The error type of the client library.

use vstd::prelude::*;

verus! {

/// `url::ParseError`, the error of the `url` crate's parser.
#[verifier::external_type_specification]
#[verifier::external_body]
pub struct ExUrlParseError(url::ParseError);

/// Errors produced while building requests or shaping responses.
#[derive(Debug)]
pub enum SaplingRemoteApiError {
    /// A URL could not be formed from the configured server URL and a path.
    Url(url::ParseError),
    /// A URL grew past the size that the URL library handles without
    /// aborting; no request is made for it.
    UrlTooLong,
    /// The server answered with an HTTP status of 400 or above.
    HttpError { status: u16, message: String, headers: Vec<(String, Vec<u8>)>, url: String },
    /// The response body could not be decoded.
    ParseResponse(String),
    /// Any other failure, with its description.
    Other(String),
}

} // verus!
