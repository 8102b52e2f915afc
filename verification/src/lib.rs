//! Building, fee-sizing and signing of a single-recipient pay-to-witness-public-key-hash
//! transfer, where the signature comes from a remote signing service.
//!
//! The library decides and computes; it calls no service. [`select`] chooses the
//! unspent outputs, [`builder`] assembles the unsigned transaction, [`fee`] settles
//! the fee, [`sign`] signs input by input with signatures that the caller fetches,
//! and [`transfer`] sequences one transfer from request to broadcast as a state
//! machine whose actions the host performs. What only the `bitcoin` crate can
//! compute (sizes, digests, identifiers, encodings, addresses) is called through
//! the few functions of [`consensus`], [`address`] and [`keys`] whose contracts are
//! taken on trust; everything else is proved against them.

pub mod address;
pub mod builder;
pub mod consensus;
pub mod error;
pub mod fee;
pub mod keys;
pub mod model;
pub mod network;
pub mod select;
pub mod sign;
pub mod transfer;
