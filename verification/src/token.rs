//! The stored credential set of one subscriber: an access token, the instant
//! it expires, and the long-lived refresh token used to mint a new one.

use vstd::prelude::*;

verus! {

/// A credential is refreshed when fewer than this many seconds remain before
/// its access token expires.
pub const REFRESH_MARGIN_SECONDS: i64 = 60;

/// One subscriber's stored credential set. The access token and its expiry
/// are always replaced together; the refresh token is reused unchanged when
/// a new access token is minted.
pub struct TokenRecord {
    /// Opaque short-lived bearer credential.
    pub access_token: String,
    /// Unix timestamp, in seconds, after which `access_token` is invalid.
    pub expiry: i64,
    /// Long-lived credential used to mint a new access token.
    pub refresh_token: String,
}

/// The mathematical value of a [`TokenRecord`]: its strings as character
/// sequences and its expiry as an unbounded integer.
pub ghost struct TokenRecordView {
    pub access_token: Seq<char>,
    pub expiry: int,
    pub refresh_token: Seq<char>,
}

impl View for TokenRecord {
    type V = TokenRecordView;

    open spec fn view(&self) -> TokenRecordView {
        TokenRecordView {
            access_token: self.access_token@,
            expiry: self.expiry as int,
            refresh_token: self.refresh_token@,
        }
    }
}

impl Clone for TokenRecord {
    fn clone(&self) -> (r: Self)
        ensures
            r == *self,
    {
        TokenRecord {
            access_token: self.access_token.clone(),
            expiry: self.expiry,
            refresh_token: self.refresh_token.clone(),
        }
    }
}

impl TokenRecord {
    /// Whether this credential must be refreshed at time `now` (seconds):
    /// true exactly when fewer than sixty seconds remain before expiry.
    pub fn needs_refresh(&self, now: i64) -> (r: bool)
        ensures
            r == (self.expiry - now < REFRESH_MARGIN_SECONDS),
    {
        (self.expiry as i128) - (now as i128) < REFRESH_MARGIN_SECONDS as i128
    }
}

} // verus!
