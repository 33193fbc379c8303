//! The data model: errors, messages and the stored types.

pub mod asset;
pub mod error;
pub mod msg;
pub mod state;
pub mod types;
