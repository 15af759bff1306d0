//! Resolution of layered node configuration into display entries.
//!
//! Two applications are covered: a Bitcoin-style daemon, whose flat file is read against
//! a schema of known keys ([`config`]), and a mining-pool service, whose sectioned file
//! and `P2POOL_` environment overrides are read into typed sections, checked and
//! flattened ([`p2poolv2_config_parser`]). The terminal application's state lives in
//! [`app`] and [`components`].
pub mod text;
pub mod number;
pub mod source;
pub mod network;
pub mod lookup;
pub mod p2poolv2_config_parser;
pub mod config;
pub mod components;
pub mod app;
