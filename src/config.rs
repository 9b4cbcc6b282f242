//! The settings a deployment of the bot reads at start-up.

use vstd::prelude::*;

verus! {

/// Connection settings: the gateway token, the database address and the
/// application id.
pub struct Config {
    pub discord_token: String,
    pub postgres_url: String,
    pub application_id: u64,
}

} // verus!
