//! The signalling core of a personal remote-desktop endpoint and relay:
//! the framed protocol, device identities, the relay's registry, local
//! consent and audit records, configuration, and the rules that govern
//! updates.

pub mod bytes;
pub mod config;
pub mod consent;
pub mod crypto;
pub mod diagnostics;
pub mod events;
pub mod hex;
pub mod identity;
pub mod manifest;
pub mod protocol;
pub mod reconnect;
pub mod relay;
pub mod security;
pub mod session_history;
pub mod startup;
pub mod system;
pub mod text;
pub mod update;
pub mod update_cache;
pub mod updater;
pub mod url;
pub mod window;
