//! Oracle-backed L2 chain derivation core.
//!
//! This library reconstructs validated rollup (L2) chain state from
//! content-addressed preimage data.  All external data — block headers,
//! transaction payloads, trie leaves — arrives through a hint/fetch
//! preimage oracle modelled as an in-memory, content-addressed store.
//! The two central components are:
//!
//! * an oracle-backed, caching chain-data provider that answers header,
//!   payload, block-info and system-config queries by walking header
//!   chains and ordered transaction tries through the oracle, and
//! * a derivation driver that discovers the starting point of a run and
//!   harvests payload attributes produced by an external derivation
//!   pipeline until a configured claim block is covered.

pub mod bytes;
pub mod cache;
pub mod codec;
pub mod driver;
pub mod host;
pub mod laws;
pub mod provider;
pub mod stores;
pub mod transform;
pub mod types;
