//! Asset classification: asset definitions and their verifiers, the
//! onboarding and verification life cycle of an asset's scope attribute, and
//! the distribution of the onboarding fee.
//!
//! Every function here carries a contract that Verus proves. Calls into the
//! `bech32`, `uuid` and `cosmwasm-std` crates stand behind small trusted
//! functions whose doc comments say what is believed of them.
//!
//! The library keeps no state of its own and does no input or output. A
//! command takes the contract's storage and what the ledger shows on the
//! scope of an asset, and answers with the storage as it is to be and with
//! what the ledger is to do.

pub mod contract;
pub mod execute;
pub mod model;
pub mod query;
pub mod service;
pub mod util;
pub mod validation;
