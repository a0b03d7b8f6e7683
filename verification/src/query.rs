//! The contract's queries: which chain query each message asks, how the
//! pages of a paginated answer are followed and gathered, and the info
//! summary.
use vstd::prelude::*;
use crate::msg::QueryMsg;
use crate::u256::U256;

verus! {

/// A query to the chain's asset-NFT and NFT modules. `page_key` is the
/// pagination key of a follow-up page; `None` asks for the first page.
#[derive(Clone, Debug, PartialEq, Eq)]
pub enum ChainQuery {
    AssetParams,
    AssetClass { id: String },
    AssetClasses { issuer: String, page_key: Option<String> },
    AssetFrozen { id: String, class_id: String },
    AssetWhitelisted { id: String, class_id: String, account: String },
    AssetWhitelistedAccounts { id: String, class_id: String, page_key: Option<String> },
    AssetBurntNft { class_id: String, nft_id: String },
    AssetBurntNftsInClass { class_id: String, page_key: Option<String> },
    NftBalance { class_id: String, owner: String },
    NftOwner { class_id: String, id: String },
    NftSupply { class_id: String },
    Nft { class_id: String, id: String },
    Nfts { class_id: Option<String>, owner: Option<String>, page_key: Option<String> },
    NftClass { class_id: String },
    NftClasses { page_key: Option<String> },
}

/// The mathematical content of a [`ChainQuery`].
pub enum ChainQueryModel {
    AssetParams,
    AssetClass { id: Seq<char> },
    AssetClasses { issuer: Seq<char>, page_key: Option<Seq<char>> },
    AssetFrozen { id: Seq<char>, class_id: Seq<char> },
    AssetWhitelisted { id: Seq<char>, class_id: Seq<char>, account: Seq<char> },
    AssetWhitelistedAccounts { id: Seq<char>, class_id: Seq<char>, page_key: Option<Seq<char>> },
    AssetBurntNft { class_id: Seq<char>, nft_id: Seq<char> },
    AssetBurntNftsInClass { class_id: Seq<char>, page_key: Option<Seq<char>> },
    NftBalance { class_id: Seq<char>, owner: Seq<char> },
    NftOwner { class_id: Seq<char>, id: Seq<char> },
    NftSupply { class_id: Seq<char> },
    Nft { class_id: Seq<char>, id: Seq<char> },
    Nfts { class_id: Option<Seq<char>>, owner: Option<Seq<char>>, page_key: Option<Seq<char>> },
    NftClass { class_id: Seq<char> },
    NftClasses { page_key: Option<Seq<char>> },
}

impl DeepView for ChainQuery {
    type V = ChainQueryModel;

    open spec fn deep_view(&self) -> ChainQueryModel {
        match self {
            ChainQuery::AssetParams => ChainQueryModel::AssetParams,
            ChainQuery::AssetClass { id } => ChainQueryModel::AssetClass { id: id@ },
            ChainQuery::AssetClasses { issuer, page_key } => ChainQueryModel::AssetClasses {
                issuer: issuer@,
                page_key: page_key.deep_view(),
            },
            ChainQuery::AssetFrozen { id, class_id } => ChainQueryModel::AssetFrozen {
                id: id@,
                class_id: class_id@,
            },
            ChainQuery::AssetWhitelisted { id, class_id, account } =>
                ChainQueryModel::AssetWhitelisted { id: id@, class_id: class_id@, account: account@ },
            ChainQuery::AssetWhitelistedAccounts { id, class_id, page_key } =>
                ChainQueryModel::AssetWhitelistedAccounts {
                    id: id@,
                    class_id: class_id@,
                    page_key: page_key.deep_view(),
                },
            ChainQuery::AssetBurntNft { class_id, nft_id } => ChainQueryModel::AssetBurntNft {
                class_id: class_id@,
                nft_id: nft_id@,
            },
            ChainQuery::AssetBurntNftsInClass { class_id, page_key } =>
                ChainQueryModel::AssetBurntNftsInClass {
                    class_id: class_id@,
                    page_key: page_key.deep_view(),
                },
            ChainQuery::NftBalance { class_id, owner } => ChainQueryModel::NftBalance {
                class_id: class_id@,
                owner: owner@,
            },
            ChainQuery::NftOwner { class_id, id } => ChainQueryModel::NftOwner {
                class_id: class_id@,
                id: id@,
            },
            ChainQuery::NftSupply { class_id } => ChainQueryModel::NftSupply { class_id: class_id@ },
            ChainQuery::Nft { class_id, id } => ChainQueryModel::Nft { class_id: class_id@, id: id@ },
            ChainQuery::Nfts { class_id, owner, page_key } => ChainQueryModel::Nfts {
                class_id: class_id.deep_view(),
                owner: owner.deep_view(),
                page_key: page_key.deep_view(),
            },
            ChainQuery::NftClass { class_id } => ChainQueryModel::NftClass { class_id: class_id@ },
            ChainQuery::NftClasses { page_key } => ChainQueryModel::NftClasses {
                page_key: page_key.deep_view(),
            },
        }
    }
}

/// Whether answering `msg` reads the stored class id.
pub open spec fn reads_class_id(msg: QueryMsg) -> bool {
    !(msg is Params || msg is Classes || msg is ClassesNft)
}

/// Whether the answer to `msg` comes in pages that are followed to the end.
pub open spec fn paginated(msg: QueryMsg) -> bool {
    ||| msg is Classes
    ||| msg is WhitelistedAccountsForNft
    ||| msg is Nfts
    ||| msg is ClassesNft
    ||| msg is BurntNftsInClass
}

/// The chain query that answers `msg` for the class `class_id`, asking for
/// the page at `page_key`. For the info summary it is the owner's balance.
pub open spec fn request_for(msg: QueryMsg, class_id: Seq<char>, page_key: Option<Seq<char>>) -> ChainQueryModel {
    match msg {
        QueryMsg::Params {  } => ChainQueryModel::AssetParams,
        QueryMsg::Class {  } => ChainQueryModel::AssetClass { id: class_id },
        QueryMsg::Classes { issuer } => ChainQueryModel::AssetClasses { issuer: issuer@, page_key },
        QueryMsg::Frozen { id } => ChainQueryModel::AssetFrozen { id: id@, class_id },
        QueryMsg::Whitelisted { id, account } => ChainQueryModel::AssetWhitelisted {
            id: id@,
            class_id,
            account: account@,
        },
        QueryMsg::WhitelistedAccountsForNft { id } => ChainQueryModel::AssetWhitelistedAccounts {
            id: id@,
            class_id,
            page_key,
        },
        QueryMsg::Balance { owner } => ChainQueryModel::NftBalance { class_id, owner: owner@ },
        QueryMsg::Owner { id } => ChainQueryModel::NftOwner { class_id, id: id@ },
        QueryMsg::Supply {  } => ChainQueryModel::NftSupply { class_id },
        QueryMsg::Nft { id } => ChainQueryModel::Nft { class_id, id: id@ },
        QueryMsg::Nfts { owner } => match owner {
            None => ChainQueryModel::Nfts { class_id: Some(class_id), owner: None, page_key },
            Some(o) => ChainQueryModel::Nfts { class_id: None, owner: Some(o@), page_key },
        },
        QueryMsg::ClassNft {  } => ChainQueryModel::NftClass { class_id },
        QueryMsg::ClassesNft {  } => ChainQueryModel::NftClasses { page_key },
        QueryMsg::BurntNft { nft_id } => ChainQueryModel::AssetBurntNft {
            class_id,
            nft_id: nft_id@,
        },
        QueryMsg::BurntNftsInClass {  } => ChainQueryModel::AssetBurntNftsInClass {
            class_id,
            page_key,
        },
        QueryMsg::GetInfo { owner } => ChainQueryModel::NftBalance { class_id, owner: owner@ },
    }
}

/// Whether answering `msg` reads the stored class id.
pub fn needs_class_id(msg: &QueryMsg) -> (r: bool)
    ensures
        r == reads_class_id(*msg),
{
    match msg {
        QueryMsg::Params {  } | QueryMsg::Classes { .. } | QueryMsg::ClassesNft {  } => false,
        _ => true,
    }
}

/// Whether the answer to `msg` is gathered over pages.
pub fn is_paginated(msg: &QueryMsg) -> (r: bool)
    ensures
        r == paginated(*msg),
        msg is Nfts ==> r,
{
    match msg {
        QueryMsg::Classes { .. }
        | QueryMsg::WhitelistedAccountsForNft { .. }
        | QueryMsg::Nfts { .. }
        | QueryMsg::ClassesNft {  }
        | QueryMsg::BurntNftsInClass {  } => true,
        _ => false,
    }
}

/// The chain query that answers `msg`, for the stored class `class_id`, at
/// the page `page_key` (`None`: the first page).
pub fn page_request(msg: &QueryMsg, class_id: &String, page_key: Option<String>) -> (r: ChainQuery)
    ensures
        r.deep_view() == request_for(*msg, class_id@, page_key.deep_view()),
{
    let c = class_id.clone();
    match msg {
        QueryMsg::Params {  } => ChainQuery::AssetParams,
        QueryMsg::Class {  } => ChainQuery::AssetClass { id: c },
        QueryMsg::Classes { issuer } => ChainQuery::AssetClasses { issuer: issuer.clone(), page_key },
        QueryMsg::Frozen { id } => ChainQuery::AssetFrozen { id: id.clone(), class_id: c },
        QueryMsg::Whitelisted { id, account } => ChainQuery::AssetWhitelisted {
            id: id.clone(),
            class_id: c,
            account: account.clone(),
        },
        QueryMsg::WhitelistedAccountsForNft { id } => ChainQuery::AssetWhitelistedAccounts {
            id: id.clone(),
            class_id: c,
            page_key,
        },
        QueryMsg::Balance { owner } => ChainQuery::NftBalance { class_id: c, owner: owner.clone() },
        QueryMsg::Owner { id } => ChainQuery::NftOwner { class_id: c, id: id.clone() },
        QueryMsg::Supply {  } => ChainQuery::NftSupply { class_id: c },
        QueryMsg::Nft { id } => ChainQuery::Nft { class_id: c, id: id.clone() },
        QueryMsg::Nfts { owner } => match owner {
            None => ChainQuery::Nfts { class_id: Some(c), owner: None, page_key },
            Some(o) => ChainQuery::Nfts { class_id: None, owner: Some(o.clone()), page_key },
        },
        QueryMsg::ClassNft {  } => ChainQuery::NftClass { class_id: c },
        QueryMsg::ClassesNft {  } => ChainQuery::NftClasses { page_key },
        QueryMsg::BurntNft { nft_id } => ChainQuery::AssetBurntNft {
            class_id: c,
            nft_id: nft_id.clone(),
        },
        QueryMsg::BurntNftsInClass {  } => ChainQuery::AssetBurntNftsInClass {
            class_id: c,
            page_key,
        },
        QueryMsg::GetInfo { owner } => ChainQuery::NftBalance { class_id: c, owner: owner.clone() },
    }
}

/// After a page whose answer carried `next_key`: the query for the next
/// page, or `None` when the answer is complete.
pub fn next_page(msg: &QueryMsg, class_id: &String, next_key: Option<String>) -> (r: Option<ChainQuery>)
    ensures
        r is Some <==> (next_key is Some && paginated(*msg)),
        r matches Some(q) ==> q.deep_view() == request_for(*msg, class_id@, next_key.deep_view()),
        (msg is Nfts && next_key is Some) ==> (r matches Some(q) && q.deep_view() == (
        ChainQueryModel::Nfts {
            class_id: if msg->Nfts_owner is None {
                Some(class_id@)
            } else {
                None
            },
            owner: msg->Nfts_owner.deep_view(),
            page_key: next_key.deep_view(),
        })),
{
    match next_key {
        None => None,
        Some(key) => if is_paginated(msg) {
            Some(page_request(msg, class_id, Some(key)))
        } else {
            None
        },
    }
}

/// The items of a paginated answer, gathered page by page in the order the
/// pages came.
pub struct PageCollector<T> {
    items: Vec<T>,
    pages: Ghost<Seq<Seq<T>>>,
}

impl<T> PageCollector<T> {
    #[verifier::type_invariant]
    spec fn holds_all_pages(&self) -> bool {
        self.items@ == self.pages@.flatten()
    }

    /// The pages gathered so far, in order.
    pub closed spec fn pages(&self) -> Seq<Seq<T>> {
        self.pages@
    }

    pub fn new() -> (r: PageCollector<T>)
        ensures
            r.pages() == Seq::<Seq<T>>::empty(),
    {
        let r = PageCollector { items: Vec::new(), pages: Ghost(Seq::empty()) };
        assert(r.items@ =~= Seq::<Seq<T>>::empty().flatten());
        r
    }

    /// Adds the items of the next page.
    pub fn absorb(&mut self, page: Vec<T>)
        ensures
            final(self).pages() == old(self).pages().push(page@),
    {
        proof {
            use_type_invariant(&*self);
        }
        let ghost before = self.pages@;
        let ghost added = page@;
        let mut taken = PageCollector::new();
        std::mem::swap(self, &mut taken);
        proof {
            use_type_invariant(&taken);
        }
        let PageCollector { items, .. } = taken;
        let mut items = items;
        let mut page = page;
        items.append(&mut page);
        proof {
            before.lemma_flatten_push(added);
        }
        *self = PageCollector { items, pages: Ghost(before.push(added)) };
    }

    /// All items gathered, page after page.
    pub fn into_items(self) -> (r: Vec<T>)
        ensures
            r@ == self.pages().flatten(),
    {
        proof {
            use_type_invariant(&self);
        }
        self.items
    }
}

/// The info summary: the current token id, the owner's balance in the
/// class, and the total mint cap.
#[derive(Clone, Debug, PartialEq, Eq)]
pub struct GetInfoResponse {
    pub current_token_id: U256,
    pub balance: u64,
    pub max_total_mint: U256,
}

/// Assembles the info summary from the stored token id and cap and the
/// balance that the chain reported.
pub fn get_info(current_token_id: U256, balance: u64, max_total_mint: U256) -> (r: GetInfoResponse)
    ensures
        r.current_token_id == current_token_id,
        r.balance == balance,
        r.max_total_mint == max_total_mint,
{
    GetInfoResponse { current_token_id, balance, max_total_mint }
}

} // verus!
