//! The voting pallet.
pub mod laws;
pub mod pallet;
pub mod types;
