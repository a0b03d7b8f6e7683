//! An NFT-collection contract for the Coreum chain: the owner issues a class,
//! mints, burns, freezes and whitelists tokens, and whitelisted buyers purchase
//! tokens while the sale cap and the price allow it.

pub mod u256;
pub mod error;
pub mod msg;
pub mod response;
pub mod state;
pub mod contract;
pub mod query;
pub mod laws;
