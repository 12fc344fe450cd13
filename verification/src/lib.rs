//! Local control plane for a desktop tool: supervision of the engine
//! subprocess, bootstrap of the runtime it depends on, installation of its
//! CLI package, an OAuth2 device-authorization client, and a secure
//! credential store.
//!
//! All decision logic lives here and is verified; process spawning, network
//! transfers and filesystem probes are performed by the surrounding
//! application, which feeds their outcomes back in as plain values.

pub mod attachments;
pub mod bootstrap;
pub mod channel;
pub mod clock;
pub mod config;
pub mod credblob;
pub mod credstore;
pub mod device;
pub mod engine;
pub mod envfile;
pub mod ghcli;
pub mod ids;
pub mod installer;
pub mod jsonval;
pub mod paths;
pub mod textutil;
pub mod types;
