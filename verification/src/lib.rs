//! Verified core of a SpaceAPI presence beacon: the open/closed status store
//! with its renewable keep-open window, the credential gate in front of the
//! mutating operations, and the request handling built on both.
//!
//! The library holds no lock, reads no clock and opens no socket. A program
//! around it owns those: it hands each request and each timer tick to the
//! server together with the current instant, and puts the answer on the wire.

use vstd::prelude::*;

pub mod config;
pub mod routes;
pub mod sensors;
pub mod server;
pub mod state;
pub mod text;
pub mod time;

use crate::config::{generated_key, ApiKey, SpaceConfig};
use crate::server::Server;

verus! {

/// Starts a server from its configuration: the store closed, the expiry
/// scheduler set to the configured tick, the reading routes mounted, and the
/// mutating ones mounted only with the admin interface on. An enabled admin
/// interface without a configured key gets a random one.
pub fn serve(config: SpaceConfig) -> (server: Server)
    ensures
        server.serves(config),
        config.admin.enabled ==> server.api_key is Some,
        config.admin.enabled && config.admin.api_key is None ==> exists|high: u64, low: u64|
            server.key() == Some(generated_key(high, low)),
{
    let fallback = if config.admin.enabled && config.admin.api_key.is_none() {
        Some(ApiKey::generate())
    } else {
        None
    };
    Server::with_key(config, fallback)
}

} // verus!
