//! Start-up configuration for a beacon node: which two configuration
//! documents the node runs with, and where its data directory lives.
//!
//! A node either resumes from an existing data directory or starts a fresh
//! chain: from a bootstrap server, from a recent genesis, or from a genesis
//! at a given time. Either way it ends with a client document and a protocol
//! document that name the same constants, or with the reason why not.
//!
//! The library decides and never acts. [`config::get_configs`] begins a run
//! and names the first thing to do outside: a path to look at, a directory
//! to create, a file to move, read or write, a server to ask. The caller
//! does it and hands back what came of it to [`config::Resolution::advance`],
//! until the run is over. What holds of every such run is stated and proved
//! in [`guarantees`].

pub mod arguments;
pub mod builder;
pub mod client_config;
pub mod config;
pub mod datadir;
pub mod decimal;
pub mod effects;
pub mod entropy;
pub mod error;
pub mod eth2_config;
pub mod guarantees;
pub mod home;
pub mod rest_api;
pub mod text;
