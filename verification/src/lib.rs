//! Custody of a unique collectible under a lock / unlock / swap protocol.
//!
//! A collection record is created once, then locked and unlocked against a
//! service fee and a protocol fee; a prepared swap exchanges the collectible
//! for a settlement amount.  Every operation is all-or-nothing: it either
//! takes effect as a whole or leaves the record and the ledger untouched.

pub mod identity;
pub mod error;
pub mod ledger;
pub mod collection;
pub mod custody;
pub mod swap;
pub mod laws;
