//! Upgrades an OpenEthereum key-value database from an older schema layout to
//! the current one: it removes obsolete columns in bounded, atomic batches and
//! rewrites the version marker last.

pub mod engine;
pub mod error;
pub mod marker;
pub mod plan;
pub mod purge;
