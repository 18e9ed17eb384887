//! The error taxonomy of the playback-tracking core, and the opaque error the
//! HTTP boundary collapses everything into.

use vstd::prelude::*;

verus! {

/// Everything that can go wrong inside the core, kept fine-grained so each
/// failure surfaces to the subscriber with its own message.
#[derive(PartialEq, Eq, Structural, Clone, Copy, Debug)]
pub enum ServiceError {
    /// No credential is stored for the subscriber; fatal for that
    /// subscription only.
    NotFound,
    /// The token store was unreachable or a query failed; fatal at startup,
    /// reported but non-fatal inside the poll loop.
    StorageError,
    /// HTTP transport or decode failure from the upstream service; always
    /// non-fatal, reported as a failure event.
    UpstreamError,
    /// A decodable upstream response missing expected fields, such as an
    /// empty album image list; non-fatal, reported.
    MalformedSnapshot,
}

/// The message a failure event carries for each kind of error.
pub open spec fn error_text(e: ServiceError) -> Seq<char> {
    match e {
        ServiceError::NotFound => "no stored credential for subscriber"@,
        ServiceError::StorageError => "token store error"@,
        ServiceError::UpstreamError => "Spotify API error"@,
        ServiceError::MalformedSnapshot => "playback snapshot has no album image"@,
    }
}

impl ServiceError {
    /// The human-readable message for this error, as carried by failure
    /// events pushed to the subscriber.
    pub fn message(&self) -> (r: String)
        ensures
            r@ == error_text(*self),
    {
        match self {
            ServiceError::NotFound => "no stored credential for subscriber".to_owned(),
            ServiceError::StorageError => "token store error".to_owned(),
            ServiceError::UpstreamError => "Spotify API error".to_owned(),
            ServiceError::MalformedSnapshot => "playback snapshot has no album image".to_owned(),
        }
    }
}

/// The single opaque error the HTTP boundary answers with when a handler
/// fails; every finer-grained error collapses into it at that boundary.
pub struct HttpError;

impl HttpError {
    /// The HTTP status code this error is served as.
    pub fn status(&self) -> (r: u16)
        ensures
            r == 500,
    {
        500
    }

    /// The response body text this error is served with.
    pub fn message(&self) -> (r: String)
        ensures
            r@ == "Internal Server Error"@,
    {
        "Internal Server Error".to_owned()
    }
}

} // verus!
