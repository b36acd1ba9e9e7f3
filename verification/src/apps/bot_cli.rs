//! The commands of the bot's command line.
use vstd::prelude::*;

verus! {

/// The commands of the bot.
#[derive(Debug)]
pub enum Commands {
    /// Starts the bot in a TEE.
    StartTee {
        tee_host: String,
        /// Basic auth to request the TEE service.
        basic_token: String,
        cose_canister: String,
        cose_namespace: String,
        object_store_canister: String,
    },
    /// Starts the bot locally.
    StartLocal {
        /// Path to an ICP identity pem file, or a 32-byte identity secret in hex.
        id_secret: String,
        /// A 48-byte root secret in hex to derive keys.
        root_secret: String,
        /// Path to the configuration file.
        config: String,
        store_path: String,
        /// The manager principal.
        manager: String,
    },
}

} // verus!
