//! A custodial vault-swap protocol: a buyer pays a configured amount of a
//! payment asset into a protocol-held proceeds vault and receives, in the same
//! atomic operation, a configured amount of a different asset drawn from a
//! protocol-held custody vault. An administrator configures pricing, starts
//! and stops the sale, and sweeps accumulated proceeds.
//!
//! Custody accounts are authorized by an address deterministically derived
//! from a seed label and the configuration store's address, so that no
//! private credential can ever control them.

pub mod citizenship;
pub mod derivation;
pub mod errors;
pub mod ledger;
pub mod token_swap;
