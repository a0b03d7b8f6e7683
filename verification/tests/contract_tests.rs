use nft::contract::{
    add_to_white_list, assert_owner, burn, class_id_for, execute, freeze, instantiate, mint, purchase,
    remove_from_white_list, send, unfreeze,
};
use nft::error::ContractError;
use nft::msg::{ExecuteMsg, InstantiateMsg};
use nft::response::NftMessage;
use nft::state::{Config, WhitelistUpdate};
use nft::u256::U256;

fn s(x: &str) -> String {
    x.to_string()
}

fn owner() -> Option<String> {
    Some(s("core1owner"))
}

fn config(current: u128, max: u128, price: u128) -> Config {
    Config {
        class_id: s("col-core1contract"),
        prereveal_token_uri: s("ipfs://hidden"),
        treasury_address: s("core1treasury"),
        protocol_address: s("core1protocol"),
        current_token_id: U256::from_u128(current),
        mint_price: U256::from_u128(price),
        sale_start_time: U256::from_u128(100),
        sale_end_time: U256::from_u128(200),
        protocol_fee: U256::from_u128(5),
        max_total_mint: U256::from_u128(max),
        uri_status: false,
    }
}

fn attrs(pairs: &[(&str, &str)]) -> Vec<(String, String)> {
    pairs.iter().map(|(k, v)| (s(k), s(v))).collect()
}

fn buy(
    cfg: &Config,
    sender: &str,
    whitelisted: bool,
    funds: u128,
    count: U256,
) -> Result<nft::response::ContractResponse, ContractError> {
    purchase(
        cfg,
        &owner(),
        &s(sender),
        whitelisted,
        funds,
        s("7"),
        count,
        Some(s("ipfs://7")),
        None,
        Some(vec![1, 2]),
        s("core1buyer"),
    )
}

#[test]
fn class_id_is_lowercased_symbol_and_address() {
    assert_eq!(class_id_for(&s("MyCol"), &s("Core1ABC")), s("mycol-core1abc"));
    assert_eq!(class_id_for(&s("abc"), &s("core1x")), s("abc-core1x"));
}

#[test]
fn owner_rule() {
    assert_eq!(assert_owner(&None, &s("core1owner")), Err(ContractError::NoOwner));
    assert_eq!(assert_owner(&owner(), &s("core1other")), Err(ContractError::NotOwner));
    assert_eq!(assert_owner(&owner(), &s("core1owner")), Ok(()));
}

#[test]
fn instantiate_stores_the_message_and_issues_the_class() {
    let msg = InstantiateMsg {
        name: s("My Collection"),
        symbol: s("MYCOL"),
        description: Some(s("desc")),
        uri: None,
        uri_hash: None,
        data: Some(vec![9]),
        features: Some(vec![0, 2]),
        royalty_rate: Some(s("0.1")),
        treasury_address: s("core1treasury"),
        protocol_address: s("core1protocol"),
        current_token_id: U256::from_u128(3),
        mint_price: U256::from_u128(10),
        sale_start_time: U256::from_u128(100),
        sale_end_time: U256::from_u128(200),
        protocol_fee: U256::from_u128(5),
        max_total_mint: U256::from_u128(50),
        prereveal_token_uri: s("ipfs://hidden"),
        uri_status: true,
    };
    let (cfg, resp) = instantiate(msg, &s("core1owner"), &s("Core1Contract"));
    assert_eq!(cfg.class_id, s("mycol-core1contract"));
    assert_eq!(cfg.current_token_id, U256::from_u128(3));
    assert_eq!(cfg.max_total_mint, U256::from_u128(50));
    assert_eq!(cfg.mint_price, U256::from_u128(10));
    assert_eq!(cfg.treasury_address, s("core1treasury"));
    assert_eq!(cfg.protocol_address, s("core1protocol"));
    assert_eq!(cfg.prereveal_token_uri, s("ipfs://hidden"));
    assert!(cfg.uri_status);
    assert_eq!(resp.attributes, attrs(&[("owner", "core1owner"), ("class_id", "mycol-core1contract")]));
    assert_eq!(
        resp.messages,
        vec![NftMessage::IssueClass {
            name: s("My Collection"),
            symbol: s("MYCOL"),
            description: Some(s("desc")),
            uri: None,
            uri_hash: None,
            data: Some(vec![9]),
            features: Some(vec![0, 2]),
            royalty_rate: Some(s("0.1")),
        }]
    );
}

#[test]
fn mint_by_owner() {
    let cfg = config(0, 10, 1);
    let resp = mint(&cfg, &owner(), &s("core1owner"), s("1"), Some(s("u")), Some(s("h")), None).unwrap();
    assert_eq!(resp.attributes, attrs(&[("method", "mint"), ("class_id", "col-core1contract"), ("id", "1")]));
    assert_eq!(
        resp.messages,
        vec![NftMessage::Mint {
            class_id: s("col-core1contract"),
            id: s("1"),
            uri: Some(s("u")),
            uri_hash: Some(s("h")),
            data: None,
        }]
    );
}

#[test]
fn token_operations_by_owner() {
    let cfg = config(0, 10, 1);
    let o = owner();
    let me = s("core1owner");
    let c = s("col-core1contract");
    let r = burn(&cfg, &o, &me, s("2")).unwrap();
    assert_eq!(r.attributes, attrs(&[("method", "burn"), ("class_id", "col-core1contract"), ("id", "2")]));
    assert_eq!(r.messages, vec![NftMessage::Burn { class_id: c.clone(), id: s("2") }]);
    let r = freeze(&cfg, &o, &me, s("3")).unwrap();
    assert_eq!(r.attributes, attrs(&[("method", "freeze"), ("class_id", "col-core1contract"), ("id", "3")]));
    assert_eq!(r.messages, vec![NftMessage::Freeze { class_id: c.clone(), id: s("3") }]);
    let r = unfreeze(&cfg, &o, &me, s("4")).unwrap();
    assert_eq!(r.attributes, attrs(&[("method", "unfreeze"), ("class_id", "col-core1contract"), ("id", "4")]));
    assert_eq!(r.messages, vec![NftMessage::Unfreeze { class_id: c.clone(), id: s("4") }]);
    let r = send(&cfg, &o, &me, s("5"), s("core1bob")).unwrap();
    assert_eq!(r.attributes, attrs(&[("method", "send"), ("class_id", "col-core1contract"), ("id", "5")]));
    assert_eq!(
        r.messages,
        vec![NftMessage::Send { class_id: c.clone(), id: s("5"), receiver: s("core1bob") }]
    );
}

#[test]
fn whitelist_changes_by_owner() {
    let cfg = config(0, 10, 1);
    let (r, w) = add_to_white_list(&cfg, &owner(), &s("core1owner"), s("6"), s("core1bob")).unwrap();
    assert_eq!(
        r.attributes,
        attrs(&[("method", "add_to_white_list"), ("class_id", "col-core1contract"), ("id", "6")])
    );
    assert_eq!(
        r.messages,
        vec![NftMessage::AddToWhitelist { class_id: s("col-core1contract"), id: s("6"), account: s("core1bob") }]
    );
    assert_eq!(w, WhitelistUpdate { account: s("core1bob"), whitelisted: true });
    let (r, w) = remove_from_white_list(&cfg, &owner(), &s("core1owner"), s("6"), s("core1bob")).unwrap();
    assert_eq!(
        r.attributes,
        attrs(&[("method", "remove_from_white_list"), ("class_id", "col-core1contract"), ("id", "6")])
    );
    assert_eq!(
        r.messages,
        vec![NftMessage::RemoveFromWhitelist {
            class_id: s("col-core1contract"),
            id: s("6"),
            account: s("core1bob"),
        }]
    );
    assert_eq!(w, WhitelistUpdate { account: s("core1bob"), whitelisted: false });
}

#[test]
fn operations_refuse_non_owner() {
    let cfg = config(0, 10, 1);
    let o = owner();
    let eve = s("core1eve");
    assert_eq!(mint(&cfg, &o, &eve, s("1"), None, None, None), Err(ContractError::NotOwner));
    assert_eq!(burn(&cfg, &o, &eve, s("1")), Err(ContractError::NotOwner));
    assert_eq!(freeze(&cfg, &None, &eve, s("1")), Err(ContractError::NoOwner));
    assert_eq!(unfreeze(&cfg, &o, &eve, s("1")), Err(ContractError::NotOwner));
    assert_eq!(send(&cfg, &o, &eve, s("1"), s("x")), Err(ContractError::NotOwner));
    assert_eq!(add_to_white_list(&cfg, &o, &eve, s("1"), s("x")), Err(ContractError::NotOwner));
    assert_eq!(remove_from_white_list(&cfg, &o, &eve, s("1"), s("x")), Err(ContractError::NotOwner));
}

#[test]
fn purchase_admitted() {
    let cfg = config(3, 10, 4);
    let resp = buy(&cfg, "core1owner", true, 12, U256::from_u128(3)).unwrap();
    assert_eq!(
        resp.attributes,
        attrs(&[("method", "mint"), ("method", "send"), ("class_id", "col-core1contract"), ("id", "7")])
    );
    assert_eq!(
        resp.messages,
        vec![
            NftMessage::Mint {
                class_id: s("col-core1contract"),
                id: s("7"),
                uri: Some(s("ipfs://7")),
                uri_hash: None,
                data: Some(vec![1, 2]),
            },
            NftMessage::Send { class_id: s("col-core1contract"), id: s("7"), receiver: s("core1buyer") },
        ]
    );
}

#[test]
fn purchase_refusals_each_in_turn() {
    let cfg = config(3, 10, 4);
    assert_eq!(buy(&cfg, "core1eve", true, 12, U256::from_u128(3)), Err(ContractError::NotOwner));
    assert_eq!(buy(&cfg, "core1owner", false, 12, U256::from_u128(3)), Err(ContractError::NotWhitelisted));
    assert_eq!(buy(&cfg, "core1owner", true, 12, U256::from_u128(0)), Err(ContractError::ZeroCount));
    // 3 + 8 = 11 > 10
    assert_eq!(buy(&cfg, "core1owner", true, 1000, U256::from_u128(8)), Err(ContractError::MaxTotalMintExceeded));
    // exactly at the cap is admitted: 3 + 7 = 10
    assert!(buy(&cfg, "core1owner", true, 28, U256::from_u128(7)).is_ok());
    // one short of the price
    assert_eq!(buy(&cfg, "core1owner", true, 11, U256::from_u128(3)), Err(ContractError::InsufficientFunds));
    let full = U256::from_be_bytes([0xff; 32]);
    let mut cfg_full = config(0, 10, 4);
    cfg_full.current_token_id = full;
    assert_eq!(buy(&cfg_full, "core1owner", true, 12, U256::from_u128(1)), Err(ContractError::TokenIdOverflow));
    let mut cfg_dear = config(0, 10, 0);
    let mut half = [0u8; 32];
    half[0] = 0x80;
    cfg_dear.mint_price = U256::from_be_bytes(half);
    assert_eq!(buy(&cfg_dear, "core1owner", true, 12, U256::from_u128(2)), Err(ContractError::PriceOverflow));
}

#[test]
fn purchase_leaves_the_token_id_alone() {
    let cfg = config(3, 10, 4);
    let before = cfg.clone();
    let _ = buy(&cfg, "core1owner", true, 12, U256::from_u128(3)).unwrap();
    assert_eq!(cfg, before);
}

#[test]
fn more_funds_and_fewer_tokens_stay_admitted() {
    let cfg = config(3, 10, 4);
    assert!(buy(&cfg, "core1owner", true, 12, U256::from_u128(3)).is_ok());
    assert!(buy(&cfg, "core1owner", true, 1_000_000, U256::from_u128(3)).is_ok());
    assert!(buy(&cfg, "core1owner", true, 12, U256::from_u128(2)).is_ok());
    assert!(buy(&cfg, "core1owner", true, 12, U256::from_u128(1)).is_ok());
}

fn all_messages() -> Vec<ExecuteMsg> {
    vec![
        ExecuteMsg::Purchase {
            count: U256::from_u128(1),
            id: s("1"),
            uri: None,
            uri_hash: None,
            data: None,
            receiver: s("core1bob"),
        },
        ExecuteMsg::MintAndSend { account: s("core1bob"), amount: 1 },
        ExecuteMsg::Mint { id: s("1"), uri: None, uri_hash: None, data: None },
        ExecuteMsg::Burn { id: s("1") },
        ExecuteMsg::Freeze { id: s("1") },
        ExecuteMsg::Unfreeze { id: s("1") },
        ExecuteMsg::AddToWhitelist { id: s("1"), account: s("core1bob") },
        ExecuteMsg::RemoveFromWhitelist { id: s("1"), account: s("core1bob") },
        ExecuteMsg::Send { id: s("1"), receiver: s("core1bob") },
    ]
}

#[test]
fn execute_refuses_everyone_but_the_owner() {
    let cfg = config(0, 10, 1);
    for msg in all_messages() {
        assert_eq!(execute(msg.clone(), &cfg, &owner(), &s("core1eve"), true, 100), Err(ContractError::NotOwner));
        assert_eq!(execute(msg, &cfg, &None, &s("core1owner"), true, 100), Err(ContractError::NoOwner));
    }
}

#[test]
fn execute_messages_target_the_configured_class() {
    let cfg = config(0, 10, 1);
    for msg in all_messages() {
        if let Ok(outcome) = execute(msg, &cfg, &owner(), &s("core1owner"), true, 100) {
            for m in outcome.response.messages {
                let class = match m {
                    NftMessage::IssueClass { .. } => panic!("execute never issues a class"),
                    NftMessage::Mint { class_id, .. }
                    | NftMessage::Burn { class_id, .. }
                    | NftMessage::Freeze { class_id, .. }
                    | NftMessage::Unfreeze { class_id, .. }
                    | NftMessage::AddToWhitelist { class_id, .. }
                    | NftMessage::RemoveFromWhitelist { class_id, .. }
                    | NftMessage::Send { class_id, .. } => class_id,
                };
                assert_eq!(class, s("col-core1contract"));
            }
        }
    }
}

#[test]
fn execute_whitelist_writes_and_read_after_write() {
    let cfg = config(0, 10, 1);
    let mut list: std::collections::HashMap<String, bool> = std::collections::HashMap::new();
    for msg in all_messages() {
        let outcome = execute(msg.clone(), &cfg, &owner(), &s("core1owner"), true, 100);
        match msg {
            ExecuteMsg::AddToWhitelist { account, .. } => {
                let w = outcome.unwrap().whitelist_update.unwrap();
                assert_eq!(w, WhitelistUpdate { account: account.clone(), whitelisted: true });
                list.insert(w.account, w.whitelisted);
                assert_eq!(list.get(&account), Some(&true));
            }
            ExecuteMsg::RemoveFromWhitelist { account, .. } => {
                let w = outcome.unwrap().whitelist_update.unwrap();
                assert_eq!(w, WhitelistUpdate { account: account.clone(), whitelisted: false });
                list.insert(w.account, w.whitelisted);
                assert_eq!(list.get(&account), Some(&false));
            }
            ExecuteMsg::MintAndSend { .. } => {
                assert_eq!(outcome, Err(ContractError::UnsupportedMessage));
            }
            _ => assert_eq!(outcome.unwrap().whitelist_update, None),
        }
    }
}

#[test]
fn execute_purchase_matches_purchase() {
    let cfg = config(3, 10, 4);
    let msg = ExecuteMsg::Purchase {
        count: U256::from_u128(3),
        id: s("7"),
        uri: Some(s("ipfs://7")),
        uri_hash: None,
        data: Some(vec![1, 2]),
        receiver: s("core1buyer"),
    };
    let outcome = execute(msg.clone(), &cfg, &owner(), &s("core1owner"), true, 12).unwrap();
    assert_eq!(outcome.response, buy(&cfg, "core1owner", true, 12, U256::from_u128(3)).unwrap());
    assert_eq!(outcome.whitelist_update, None);
    assert_eq!(
        execute(msg, &cfg, &owner(), &s("core1owner"), true, 11),
        Err(ContractError::InsufficientFunds)
    );
}

#[test]
fn collection_acts_on_the_class_it_issued() {
    let msg = InstantiateMsg {
        name: s("Col"),
        symbol: s("COL"),
        description: None,
        uri: None,
        uri_hash: None,
        data: None,
        features: None,
        royalty_rate: None,
        treasury_address: s("core1treasury"),
        protocol_address: s("core1protocol"),
        current_token_id: U256::from_u128(0),
        mint_price: U256::from_u128(1),
        sale_start_time: U256::from_u128(0),
        sale_end_time: U256::from_u128(0),
        protocol_fee: U256::from_u128(0),
        max_total_mint: U256::from_u128(10),
        prereveal_token_uri: s(""),
        uri_status: false,
    };
    let (cfg, _) = instantiate(msg, &s("core1owner"), &s("CORE1Contract"));
    let outcome = execute(ExecuteMsg::Burn { id: s("1") }, &cfg, &owner(), &s("core1owner"), false, 0).unwrap();
    assert_eq!(outcome.response.messages, vec![NftMessage::Burn { class_id: s("col-core1contract"), id: s("1") }]);
}
