//! A verified engine for authenticated, mutable asset-metadata records.
//!
//! The library decides, for every requested creation or mutation of a
//! metadata record, whether the request is authorized and internally
//! consistent, and encodes the resulting record in a fixed binary layout
//! that tolerates partial corruption left behind by older schema versions.

pub mod account;
pub mod assertions;
pub mod codec;
pub mod config;
pub mod create;
pub mod decode;
pub mod encode;
pub mod error;
pub mod instruction;
pub mod laws;
pub mod lifecycle;
pub mod pda;
pub mod processor;
pub mod roundtrip;
pub mod state;
pub mod update;
pub mod utils;
