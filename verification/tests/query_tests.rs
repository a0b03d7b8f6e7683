use nft::msg::QueryMsg;
use nft::query::{get_info, is_paginated, needs_class_id, next_page, page_request, ChainQuery, PageCollector};
use nft::u256::U256;

fn s(x: &str) -> String {
    x.to_string()
}

fn class() -> String {
    s("col-core1contract")
}

#[test]
fn single_queries_ask_for_the_stored_class() {
    let c = class();
    assert_eq!(page_request(&QueryMsg::Params {}, &c, None), ChainQuery::AssetParams);
    assert_eq!(page_request(&QueryMsg::Class {}, &c, None), ChainQuery::AssetClass { id: class() });
    assert_eq!(
        page_request(&QueryMsg::Frozen { id: s("1") }, &c, None),
        ChainQuery::AssetFrozen { id: s("1"), class_id: class() }
    );
    assert_eq!(
        page_request(&QueryMsg::Whitelisted { id: s("1"), account: s("core1bob") }, &c, None),
        ChainQuery::AssetWhitelisted { id: s("1"), class_id: class(), account: s("core1bob") }
    );
    assert_eq!(
        page_request(&QueryMsg::Balance { owner: s("core1bob") }, &c, None),
        ChainQuery::NftBalance { class_id: class(), owner: s("core1bob") }
    );
    assert_eq!(
        page_request(&QueryMsg::Owner { id: s("1") }, &c, None),
        ChainQuery::NftOwner { class_id: class(), id: s("1") }
    );
    assert_eq!(page_request(&QueryMsg::Supply {}, &c, None), ChainQuery::NftSupply { class_id: class() });
    assert_eq!(
        page_request(&QueryMsg::Nft { id: s("1") }, &c, None),
        ChainQuery::Nft { class_id: class(), id: s("1") }
    );
    assert_eq!(page_request(&QueryMsg::ClassNft {}, &c, None), ChainQuery::NftClass { class_id: class() });
    assert_eq!(
        page_request(&QueryMsg::BurntNft { nft_id: s("9") }, &c, None),
        ChainQuery::AssetBurntNft { class_id: class(), nft_id: s("9") }
    );
    assert_eq!(
        page_request(&QueryMsg::GetInfo { owner: s("core1bob") }, &c, None),
        ChainQuery::NftBalance { class_id: class(), owner: s("core1bob") }
    );
}

#[test]
fn nfts_by_class_or_by_owner() {
    let c = class();
    assert_eq!(
        page_request(&QueryMsg::Nfts { owner: None }, &c, None),
        ChainQuery::Nfts { class_id: Some(class()), owner: None, page_key: None }
    );
    assert_eq!(
        page_request(&QueryMsg::Nfts { owner: Some(s("core1bob")) }, &c, Some(s("k"))),
        ChainQuery::Nfts { class_id: None, owner: Some(s("core1bob")), page_key: Some(s("k")) }
    );
}

#[test]
fn which_queries_read_the_class_and_which_are_paged() {
    assert!(!needs_class_id(&QueryMsg::Params {}));
    assert!(!needs_class_id(&QueryMsg::Classes { issuer: s("x") }));
    assert!(!needs_class_id(&QueryMsg::ClassesNft {}));
    assert!(needs_class_id(&QueryMsg::Supply {}));
    assert!(needs_class_id(&QueryMsg::BurntNftsInClass {}));
    assert!(is_paginated(&QueryMsg::Classes { issuer: s("x") }));
    assert!(is_paginated(&QueryMsg::WhitelistedAccountsForNft { id: s("1") }));
    assert!(is_paginated(&QueryMsg::Nfts { owner: None }));
    assert!(is_paginated(&QueryMsg::ClassesNft {}));
    assert!(is_paginated(&QueryMsg::BurntNftsInClass {}));
    assert!(!is_paginated(&QueryMsg::Nft { id: s("1") }));
    assert!(!is_paginated(&QueryMsg::GetInfo { owner: s("x") }));
}

#[test]
fn pages_are_followed_by_their_next_key() {
    let c = class();
    let msg = QueryMsg::BurntNftsInClass {};
    assert_eq!(
        page_request(&msg, &c, None),
        ChainQuery::AssetBurntNftsInClass { class_id: class(), page_key: None }
    );
    assert_eq!(
        next_page(&msg, &c, Some(s("page2"))),
        Some(ChainQuery::AssetBurntNftsInClass { class_id: class(), page_key: Some(s("page2")) })
    );
    assert_eq!(next_page(&msg, &c, None), None);
    let msg = QueryMsg::Classes { issuer: s("core1issuer") };
    assert_eq!(
        next_page(&msg, &c, Some(s("k"))),
        Some(ChainQuery::AssetClasses { issuer: s("core1issuer"), page_key: Some(s("k")) })
    );
    assert_eq!(
        next_page(&QueryMsg::ClassesNft {}, &c, Some(s("k"))),
        Some(ChainQuery::NftClasses { page_key: Some(s("k")) })
    );
    assert_eq!(
        next_page(&QueryMsg::WhitelistedAccountsForNft { id: s("1") }, &c, Some(s("k"))),
        Some(ChainQuery::AssetWhitelistedAccounts { id: s("1"), class_id: class(), page_key: Some(s("k")) })
    );
    // a single answer has no next page, whatever it carries
    assert_eq!(next_page(&QueryMsg::Supply {}, &c, Some(s("k"))), None);
}

#[test]
fn collector_keeps_every_page_in_order() {
    let mut pages = PageCollector::new();
    pages.absorb(vec![1, 2]);
    pages.absorb(vec![]);
    pages.absorb(vec![3]);
    assert_eq!(pages.into_items(), vec![1, 2, 3]);
    let empty: PageCollector<String> = PageCollector::new();
    assert!(empty.into_items().is_empty());
}

#[test]
fn info_summary() {
    let info = get_info(U256::from_u128(3), 2, U256::from_u128(10));
    assert_eq!(info.current_token_id, U256::from_u128(3));
    assert_eq!(info.balance, 2);
    assert_eq!(info.max_total_mint, U256::from_u128(10));
}
