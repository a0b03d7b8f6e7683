//! The messages that the contract accepts.
use vstd::prelude::*;
use crate::u256::U256;

verus! {

/// The parameters of a new collection.
#[derive(Clone, Debug, PartialEq, Eq)]
pub struct InstantiateMsg {
    pub name: String,
    pub symbol: String,
    pub description: Option<String>,
    pub uri: Option<String>,
    pub uri_hash: Option<String>,
    pub data: Option<Vec<u8>>,
    pub features: Option<Vec<u32>>,
    pub royalty_rate: Option<String>,
    pub treasury_address: String,
    pub protocol_address: String,
    pub current_token_id: U256,
    pub mint_price: U256,
    pub sale_start_time: U256,
    pub sale_end_time: U256,
    pub protocol_fee: U256,
    pub max_total_mint: U256,
    pub prereveal_token_uri: String,
    pub uri_status: bool,
}

/// The transactions of the contract.
#[derive(Clone, Debug, PartialEq, Eq)]
pub enum ExecuteMsg {
    Purchase {
        count: U256,
        id: String,
        uri: Option<String>,
        uri_hash: Option<String>,
        data: Option<Vec<u8>>,
        receiver: String,
    },
    MintAndSend { account: String, amount: u128 },
    Mint { id: String, uri: Option<String>, uri_hash: Option<String>, data: Option<Vec<u8>> },
    Burn { id: String },
    Freeze { id: String },
    Unfreeze { id: String },
    AddToWhitelist { id: String, account: String },
    RemoveFromWhitelist { id: String, account: String },
    Send { id: String, receiver: String },
}

/// The queries of the contract.
#[derive(Clone, Debug, PartialEq, Eq)]
pub enum QueryMsg {
    Params {},
    Class {},
    Classes { issuer: String },
    Frozen { id: String },
    Whitelisted { id: String, account: String },
    WhitelistedAccountsForNft { id: String },
    Balance { owner: String },
    Owner { id: String },
    Supply {},
    Nft { id: String },
    Nfts { owner: Option<String> },
    ClassNft {},
    ClassesNft {},
    BurntNft { nft_id: String },
    BurntNftsInClass {},
    GetInfo { owner: String },
}

} // verus!
