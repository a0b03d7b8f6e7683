//! Properties of the contract as a whole, proved from the contracts of its
//! transactions.
use vstd::prelude::*;
use crate::contract::{
    class_id_of, execute_spec, instantiate_response, instantiated_config, owner_check, purchase_check,
    OutcomeModel,
};
use crate::query::{paginated, request_for, ChainQueryModel};
use crate::response::NftMessageModel;
use crate::u256::{u256_limit, U256};
use crate::error::ContractError;
use crate::msg::{ExecuteMsg, InstantiateMsg, QueryMsg};
use crate::state::Config;

verus! {

/// No execute message from anyone but the owner does anything: each is
/// refused with the ownership rule's own error, and writes nothing.
pub proof fn lemma_only_owner_acts(
    msg: ExecuteMsg,
    config: Config,
    owner: Option<Seq<char>>,
    sender: Seq<char>,
    whitelisted: bool,
    funds: nat,
)
    requires
        owner_check(owner, sender) is Err,
    ensures
        execute_spec(msg, config, owner, sender, whitelisted, funds) == Err::<OutcomeModel, ContractError>(
            owner_check(owner, sender)->Err_0,
        ),
{
}

/// Every message that an accepted execute message dispatches acts on the
/// configured class.
pub proof fn lemma_messages_target_configured_class(
    msg: ExecuteMsg,
    config: Config,
    owner: Option<Seq<char>>,
    sender: Seq<char>,
    whitelisted: bool,
    funds: nat,
)
    ensures
        execute_spec(msg, config, owner, sender, whitelisted, funds) matches Ok(o) ==> forall|i: int|
            0 <= i < o.response.messages.len() ==> #[trigger] o.response.messages[i].target_class()
                == Some(config.class_id@),
{
}

/// Once instantiated with `init` at `contract_address`, every message that
/// the contract dispatches acts on the class it issued: the lowercased
/// `"{symbol}-{contract_address}"`.
pub proof fn lemma_collection_acts_on_its_class(
    init: InstantiateMsg,
    contract_address: Seq<char>,
    config: Config,
    msg: ExecuteMsg,
    owner: Option<Seq<char>>,
    sender: Seq<char>,
    whitelisted: bool,
    funds: nat,
)
    requires
        instantiated_config(config, init, contract_address),
    ensures
        execute_spec(msg, config, owner, sender, whitelisted, funds) matches Ok(o) ==> forall|i: int|
            0 <= i < o.response.messages.len() ==> #[trigger] o.response.messages[i].target_class()
                == Some(class_id_of(init.symbol@, contract_address)),
{
    lemma_messages_target_configured_class(msg, config, owner, sender, whitelisted, funds);
}

/// Only the whitelist messages write the whitelist: adding writes `true` and
/// removing writes `false`, for the account named.
pub proof fn lemma_whitelist_writes(
    msg: ExecuteMsg,
    config: Config,
    owner: Option<Seq<char>>,
    sender: Seq<char>,
    whitelisted: bool,
    funds: nat,
)
    ensures
        execute_spec(msg, config, owner, sender, whitelisted, funds) matches Ok(o) ==> match msg {
            ExecuteMsg::AddToWhitelist { account, .. } => o.whitelist_update == Some(
                (account@, true),
            ),
            ExecuteMsg::RemoveFromWhitelist { account, .. } => o.whitelist_update == Some(
                (account@, false),
            ),
            _ => o.whitelist_update is None,
        },
{
}

/// The whitelist with one write applied.
pub open spec fn apply_update(list: Map<Seq<char>, bool>, update: Option<(Seq<char>, bool)>) -> Map<
    Seq<char>,
    bool,
> {
    match update {
        Some((account, flag)) => list.insert(account, flag),
        None => list,
    }
}

/// The entry that a purchase reads after a whitelist message is the one
/// that message wrote: `true` after adding the account, `false` after
/// removing it.
pub proof fn lemma_whitelist_read_after_write(
    list: Map<Seq<char>, bool>,
    msg: ExecuteMsg,
    config: Config,
    owner: Option<Seq<char>>,
    sender: Seq<char>,
    whitelisted: bool,
    funds: nat,
)
    ensures
        execute_spec(msg, config, owner, sender, whitelisted, funds) matches Ok(o) ==> match msg {
            ExecuteMsg::AddToWhitelist { account, .. } => apply_update(
                list,
                o.whitelist_update,
            )[account@],
            ExecuteMsg::RemoveFromWhitelist { account, .. } => !apply_update(
                list,
                o.whitelist_update,
            )[account@],
            _ => apply_update(list, o.whitelist_update) == list,
        },
{
}

/// An admitted purchase stays within the mint cap and is paid for.
pub proof fn lemma_admitted_purchase_is_paid(
    owner: Option<Seq<char>>,
    sender: Seq<char>,
    whitelisted: bool,
    count: nat,
    current_token_id: nat,
    max_total_mint: nat,
    mint_price: nat,
    funds: nat,
)
    requires
        purchase_check(
            owner,
            sender,
            whitelisted,
            count,
            current_token_id,
            max_total_mint,
            mint_price,
            funds,
        ) is Ok,
    ensures
        owner == Some(sender),
        whitelisted,
        count > 0,
        current_token_id + count <= max_total_mint,
        mint_price * count <= funds,
{
}

/// Sending more funds never turns an admitted purchase into a refused one.
pub proof fn lemma_purchase_more_funds(
    owner: Option<Seq<char>>,
    sender: Seq<char>,
    whitelisted: bool,
    count: nat,
    current_token_id: nat,
    max_total_mint: nat,
    mint_price: nat,
    funds: nat,
    more_funds: nat,
)
    requires
        purchase_check(
            owner,
            sender,
            whitelisted,
            count,
            current_token_id,
            max_total_mint,
            mint_price,
            funds,
        ) is Ok,
        funds <= more_funds,
    ensures
        purchase_check(
            owner,
            sender,
            whitelisted,
            count,
            current_token_id,
            max_total_mint,
            mint_price,
            more_funds,
        ) is Ok,
{
}

/// Buying fewer tokens (but at least one) never turns an admitted purchase
/// into a refused one.
pub proof fn lemma_purchase_fewer_tokens(
    owner: Option<Seq<char>>,
    sender: Seq<char>,
    whitelisted: bool,
    count: nat,
    fewer: nat,
    current_token_id: nat,
    max_total_mint: nat,
    mint_price: nat,
    funds: nat,
)
    requires
        purchase_check(
            owner,
            sender,
            whitelisted,
            count,
            current_token_id,
            max_total_mint,
            mint_price,
            funds,
        ) is Ok,
        0 < fewer <= count,
    ensures
        purchase_check(
            owner,
            sender,
            whitelisted,
            fewer,
            current_token_id,
            max_total_mint,
            mint_price,
            funds,
        ) is Ok,
{
    assert(mint_price * fewer <= mint_price * count) by (nonlinear_arith)
        requires
            fewer <= count,
    ;
}

/// An admitted purchase mints token `id` of the configured class with
/// exactly the uri, uri hash and data given, then sends that token to the
/// receiver given; it writes nothing to the whitelist. A purchase by the
/// whitelisted owner of a positive count within the cap, paid in full and
/// without overflow, is admitted.
pub proof fn lemma_purchase_mints_and_sends_as_asked(
    config: Config,
    owner: Option<Seq<char>>,
    sender: Seq<char>,
    whitelisted: bool,
    funds: nat,
    count: U256,
    id: String,
    uri: Option<String>,
    uri_hash: Option<String>,
    data: Option<Vec<u8>>,
    receiver: String,
)
    ensures
        execute_spec(
            ExecuteMsg::Purchase { count, id, uri, uri_hash, data, receiver },
            config,
            owner,
            sender,
            whitelisted,
            funds,
        ) matches Ok(o) ==> {
            &&& o.whitelist_update is None
            &&& o.response.messages == seq![
                NftMessageModel::Mint {
                    class_id: config.class_id@,
                    id: id@,
                    uri: uri.deep_view(),
                    uri_hash: uri_hash.deep_view(),
                    data: data.deep_view(),
                },
                NftMessageModel::Send { class_id: config.class_id@, id: id@, receiver: receiver@ },
            ]
            &&& o.response.attributes == seq![
                ("method"@, "mint"@),
                ("method"@, "send"@),
                ("class_id"@, config.class_id@),
                ("id"@, id@),
            ]
        },
        (owner == Some(sender) && whitelisted && count.value() > 0 && config.current_token_id.value()
            + count.value() <= config.max_total_mint.value() && config.current_token_id.value()
            + count.value() < u256_limit() && config.mint_price.value() * count.value()
            < u256_limit() && config.mint_price.value() * count.value() <= funds) ==> execute_spec(
            ExecuteMsg::Purchase { count, id, uri, uri_hash, data, receiver },
            config,
            owner,
            sender,
            whitelisted,
            funds,
        ) is Ok,
{
}

/// Instantiation answers with the sender as owner and the issued class id,
/// and issues exactly one class whose every field is the same-named field
/// of the instantiate message.
pub proof fn lemma_instantiate_issues_class_as_given(
    msg: InstantiateMsg,
    sender: Seq<char>,
    contract_address: Seq<char>,
)
    ensures
        instantiate_response(msg, sender, contract_address).attributes == seq![
            ("owner"@, sender),
            ("class_id"@, class_id_of(msg.symbol@, contract_address)),
        ],
        instantiate_response(msg, sender, contract_address).messages == seq![
            NftMessageModel::IssueClass {
                name: msg.name@,
                symbol: msg.symbol@,
                description: msg.description.deep_view(),
                uri: msg.uri.deep_view(),
                uri_hash: msg.uri_hash.deep_view(),
                data: msg.data.deep_view(),
                features: msg.features.deep_view(),
                royalty_rate: msg.royalty_rate.deep_view(),
            },
        ],
{
}

/// For the owner, each token operation does what it names: it answers with
/// its own method name, the configured class and the token id it was given,
/// and dispatches exactly one message of its own kind on that token (with
/// the account or receiver it was given). Only the whitelist operations
/// write the whitelist.
pub proof fn lemma_owner_operations_do_what_they_name(
    config: Config,
    sender: Seq<char>,
    whitelisted: bool,
    funds: nat,
    id: String,
    uri: Option<String>,
    uri_hash: Option<String>,
    data: Option<Vec<u8>>,
    other: String,
)
    ensures
        execute_spec(
            ExecuteMsg::Mint { id, uri, uri_hash, data },
            config,
            Some(sender),
            sender,
            whitelisted,
            funds,
        ) matches Ok(o) && o.whitelist_update is None && o.response.attributes == seq![
            ("method"@, "mint"@),
            ("class_id"@, config.class_id@),
            ("id"@, id@),
        ] && o.response.messages == seq![
            NftMessageModel::Mint {
                class_id: config.class_id@,
                id: id@,
                uri: uri.deep_view(),
                uri_hash: uri_hash.deep_view(),
                data: data.deep_view(),
            },
        ],
        execute_spec(ExecuteMsg::Burn { id }, config, Some(sender), sender, whitelisted, funds) matches Ok(
            o,
        ) && o.whitelist_update is None && o.response.attributes == seq![
            ("method"@, "burn"@),
            ("class_id"@, config.class_id@),
            ("id"@, id@),
        ] && o.response.messages == seq![
            NftMessageModel::Burn { class_id: config.class_id@, id: id@ },
        ],
        execute_spec(ExecuteMsg::Freeze { id }, config, Some(sender), sender, whitelisted, funds) matches Ok(
            o,
        ) && o.whitelist_update is None && o.response.attributes == seq![
            ("method"@, "freeze"@),
            ("class_id"@, config.class_id@),
            ("id"@, id@),
        ] && o.response.messages == seq![
            NftMessageModel::Freeze { class_id: config.class_id@, id: id@ },
        ],
        execute_spec(
            ExecuteMsg::Unfreeze { id },
            config,
            Some(sender),
            sender,
            whitelisted,
            funds,
        ) matches Ok(o) && o.whitelist_update is None && o.response.attributes == seq![
            ("method"@, "unfreeze"@),
            ("class_id"@, config.class_id@),
            ("id"@, id@),
        ] && o.response.messages == seq![
            NftMessageModel::Unfreeze { class_id: config.class_id@, id: id@ },
        ],
        execute_spec(
            ExecuteMsg::Send { id, receiver: other },
            config,
            Some(sender),
            sender,
            whitelisted,
            funds,
        ) matches Ok(o) && o.whitelist_update is None && o.response.attributes == seq![
            ("method"@, "send"@),
            ("class_id"@, config.class_id@),
            ("id"@, id@),
        ] && o.response.messages == seq![
            NftMessageModel::Send { class_id: config.class_id@, id: id@, receiver: other@ },
        ],
        execute_spec(
            ExecuteMsg::AddToWhitelist { id, account: other },
            config,
            Some(sender),
            sender,
            whitelisted,
            funds,
        ) matches Ok(o) && o.whitelist_update == Some((other@, true)) && o.response.attributes
            == seq![
            ("method"@, "add_to_white_list"@),
            ("class_id"@, config.class_id@),
            ("id"@, id@),
        ] && o.response.messages == seq![
            NftMessageModel::AddToWhitelist {
                class_id: config.class_id@,
                id: id@,
                account: other@,
            },
        ],
        execute_spec(
            ExecuteMsg::RemoveFromWhitelist { id, account: other },
            config,
            Some(sender),
            sender,
            whitelisted,
            funds,
        ) matches Ok(o) && o.whitelist_update == Some((other@, false)) && o.response.attributes
            == seq![
            ("method"@, "remove_from_white_list"@),
            ("class_id"@, config.class_id@),
            ("id"@, id@),
        ] && o.response.messages == seq![
            NftMessageModel::RemoveFromWhitelist {
                class_id: config.class_id@,
                id: id@,
                account: other@,
            },
        ],
{
}

/// The page a chain query asks for; `None` for the first page, and for a
/// query that is not paged.
pub open spec fn asked_page(q: ChainQueryModel) -> Option<Seq<char>> {
    match q {
        ChainQueryModel::AssetClasses { page_key, .. } => page_key,
        ChainQueryModel::AssetWhitelistedAccounts { page_key, .. } => page_key,
        ChainQueryModel::AssetBurntNftsInClass { page_key, .. } => page_key,
        ChainQueryModel::Nfts { page_key, .. } => page_key,
        ChainQueryModel::NftClasses { page_key } => page_key,
        _ => None,
    }
}

/// Every listing query (classes, whitelisted accounts, burnt tokens, the
/// tokens of the class or of an owner, all classes) is followed page by
/// page: it is paginated, and the request for a page asks for exactly the
/// key the previous page handed on.
pub proof fn lemma_listings_follow_every_page(
    msg: QueryMsg,
    class_id: Seq<char>,
    key: Option<Seq<char>>,
)
    requires
        msg is Classes || msg is WhitelistedAccountsForNft || msg is Nfts || msg is ClassesNft
            || msg is BurntNftsInClass,
    ensures
        paginated(msg),
        asked_page(request_for(msg, class_id, key)) == key,
{
}

/// The tokens are listed by the configured class when no owner is given,
/// and by the owner otherwise; either way the listing is paginated.
pub proof fn lemma_nfts_listing(owner: Option<String>, class_id: Seq<char>, key: Option<Seq<char>>)
    ensures
        paginated(QueryMsg::Nfts { owner }),
        request_for(QueryMsg::Nfts { owner }, class_id, key) == (ChainQueryModel::Nfts {
            class_id: if owner is None {
                Some(class_id)
            } else {
                None
            },
            owner: owner.deep_view(),
            page_key: key,
        }),
{
}

/// Each single query asks the chain about the stored class and about
/// exactly the token, account or owner it names.
pub proof fn lemma_queries_ask_what_they_name(
    class_id: Seq<char>,
    id: String,
    account: String,
    key: Option<Seq<char>>,
)
    ensures
        request_for(QueryMsg::Class {  }, class_id, key) == (ChainQueryModel::AssetClass { id: class_id }),
        request_for(QueryMsg::Frozen { id }, class_id, key) == (ChainQueryModel::AssetFrozen {
            id: id@,
            class_id,
        }),
        request_for(QueryMsg::Whitelisted { id, account }, class_id, key) == (
        ChainQueryModel::AssetWhitelisted { id: id@, class_id, account: account@ }),
        request_for(QueryMsg::Balance { owner: account }, class_id, key) == (
        ChainQueryModel::NftBalance { class_id, owner: account@ }),
        request_for(QueryMsg::GetInfo { owner: account }, class_id, key) == (
        ChainQueryModel::NftBalance { class_id, owner: account@ }),
        request_for(QueryMsg::Owner { id }, class_id, key) == (ChainQueryModel::NftOwner {
            class_id,
            id: id@,
        }),
        request_for(QueryMsg::Supply {  }, class_id, key) == (ChainQueryModel::NftSupply { class_id }),
        request_for(QueryMsg::Nft { id }, class_id, key) == (ChainQueryModel::Nft { class_id, id: id@ }),
        request_for(QueryMsg::ClassNft {  }, class_id, key) == (ChainQueryModel::NftClass { class_id }),
        request_for(QueryMsg::BurntNft { nft_id: id }, class_id, key) == (
        ChainQueryModel::AssetBurntNft { class_id, nft_id: id@ }),
        request_for(QueryMsg::Params {  }, class_id, key) == ChainQueryModel::AssetParams,
{
}

} // verus!
