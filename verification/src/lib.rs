//! Deterministic address derivation for a hierarchical wallet.
//!
//! From one master seed the library derives many addresses along hardened
//! derivation paths, encodes them with a network prefix, and can search a
//! derivation range for the coordinates of a previously seen address.

pub mod builder;
pub mod derive;
pub mod encode;
pub mod error;
pub mod path;
