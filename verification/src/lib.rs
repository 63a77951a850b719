//! State-query and protocol-translation layer of a single-node Starknet
//! development network: canonical field-element encoding, the builder of
//! state diffs and their wire form, the table from internal failures to the
//! public error vocabulary, and the catalogue of read-only query operations.

pub mod block_id;
pub mod dispatcher;
pub mod error;
pub mod felt;
pub mod models;
pub mod state;
pub mod wire;
