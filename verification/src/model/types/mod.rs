//! The smaller types that definitions, attributes and messages are made of.

pub mod access_route;
pub mod asset_identifier;
pub mod asset_onboarding_status;
pub mod asset_qualifier;
pub mod asset_verification_result;
pub mod fee_destination;
pub mod message_info;
pub mod response;
