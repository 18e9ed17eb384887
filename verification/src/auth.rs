//! The authorization-code leg: building the authorization redirect and
//! turning a successful code exchange into the credential set that is
//! persisted before the subscriber's first subscription. The HTTP calls
//! themselves live outside the core; only their plain values pass through
//! here.

use vstd::prelude::*;
use vstd::string::StringExecFns;

use crate::config::EnvironmentVariables;
use crate::token::TokenRecord;

verus! {

/// What the upstream token endpoint answers the authorization-code exchange
/// with: a fresh access token, its lifetime in seconds, and the long-lived
/// refresh token.
pub struct AccessTokenResponse {
    /// The freshly issued access token.
    pub access_token: String,
    /// How many seconds the access token is valid for.
    pub expires_in: i64,
    /// The long-lived refresh token issued alongside it.
    pub refresh_token: String,
}

impl AccessTokenResponse {
    /// The credential set persisted after a successful exchange at
    /// wall-clock second `now`: both tokens as issued, expiring
    /// `expires_in` seconds from now.
    pub fn into_record(self, now: i64) -> (r: TokenRecord)
        requires
            i64::MIN <= now + self.expires_in <= i64::MAX,
        ensures
            r.access_token == self.access_token,
            r@.expiry == now + self.expires_in,
            r.refresh_token == self.refresh_token,
    {
        let expiry = ((now as i128) + (self.expires_in as i128)) as i64;
        TokenRecord { access_token: self.access_token, expiry, refresh_token: self.refresh_token }
    }
}

/// The URL a new subscriber is redirected to for authorization: the
/// upstream authorize endpoint, carrying the client identifier, the `code`
/// response type, this service's callback as the redirect URI, and the
/// scopes the poller needs.
pub open spec fn spec_authorize_url(client_id: Seq<char>, host: Seq<char>) -> Seq<char> {
    "https://accounts.spotify.com/authorize?client_id="@ + client_id
        + "&response_type=code&redirect_uri="@ + host + "/auth/callback"@
        + "&scope=user-read-email,user-read-private,user-read-playback-state"@
}

/// Builds the authorization redirect URL for this service's configuration.
pub fn authorize_url(env: &EnvironmentVariables) -> (r: String)
    ensures
        r@ == spec_authorize_url(env.spotify_client_id@, env.host_address@),
{
    let mut url = String::new();
    url.append("https://accounts.spotify.com/authorize?client_id=");
    url.append(env.spotify_client_id.as_str());
    url.append("&response_type=code&redirect_uri=");
    url.append(env.host_address.as_str());
    url.append("/auth/callback");
    url.append("&scope=user-read-email,user-read-private,user-read-playback-state");
    proof {
        assert(url@ =~= spec_authorize_url(env.spotify_client_id@, env.host_address@));
    }
    url
}

/// The target a subscriber is redirected to after a successful exchange:
/// the service root, carrying the subscriber's identity as the query
/// parameter the stream subscription is keyed by.
pub fn success_redirect_target(identity: &String) -> (r: String)
    ensures
        r@ == "/?uri="@ + identity@,
{
    let mut target = String::new();
    target.append("/?uri=");
    target.append(identity.as_str());
    proof {
        assert(target@ =~= "/?uri="@ + identity@);
    }
    target
}

/// The redirect URI this service registers for the authorization-code
/// exchange: its own callback route under the configured host address.
pub fn callback_redirect_uri(env: &EnvironmentVariables) -> (r: String)
    ensures
        r@ == env.host_address@ + "/auth/callback"@,
{
    let mut url = String::new();
    url.append(env.host_address.as_str());
    url.append("/auth/callback");
    proof {
        assert(url@ =~= env.host_address@ + "/auth/callback"@);
    }
    url
}

} // verus!
