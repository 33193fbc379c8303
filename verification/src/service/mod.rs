//! What the commands on assets share.

pub mod asset_meta_repository;
