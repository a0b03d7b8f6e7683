//! What the contract keeps in storage.
use vstd::prelude::*;
use crate::u256::U256;

verus! {

/// The contract's stored configuration, written once at instantiation.
#[derive(Clone, Debug, PartialEq, Eq)]
pub struct Config {
    pub class_id: String,
    pub prereveal_token_uri: String,
    pub treasury_address: String,
    pub protocol_address: String,
    pub current_token_id: U256,
    pub mint_price: U256,
    pub sale_start_time: U256,
    pub sale_end_time: U256,
    pub protocol_fee: U256,
    pub max_total_mint: U256,
    pub uri_status: bool,
}

/// A write to the purchase whitelist: `account` maps to `whitelisted`.
#[derive(Clone, Debug, PartialEq, Eq)]
pub struct WhitelistUpdate {
    pub account: String,
    pub whitelisted: bool,
}

} // verus!
