//! A first-come-first-served name registry.
//!
//! Every name is a unique identifier with an associated value and owner.
//! Anyone may register an unclaimed name by paying a fee; afterwards only
//! the recorded owner may change its value or transfer it.  Names may be
//! given a finite expiration height, after which they become registrable
//! again.

pub mod laws;
pub mod ledger;
pub mod policy;
pub mod registry;
pub mod types;
