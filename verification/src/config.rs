//! Service-wide configuration, constructed once at startup and passed by
//! reference into each component; there is no ambient global state.

use vstd::prelude::*;

verus! {

/// The values the service is configured with. The unverified shell fills this
/// from the process environment and hands it in; nothing here is read from the
/// environment directly.
pub struct EnvironmentVariables {
    /// Connection string for the token store's backing database.
    pub database_url: String,
    /// Public base address of this service, used to build redirect URIs.
    pub host_address: String,
    /// OAuth client identifier presented to the upstream service.
    pub spotify_client_id: String,
    /// OAuth client secret presented to the upstream service.
    pub spotify_client_secret: String,
    /// TCP port the service listens on.
    pub port: u16,
}

} // verus!
