//! The contract's transactions: instantiation, the owner's token operations,
//! whitelisting, and purchases.
use vstd::prelude::*;
use vstd::string::*;
use crate::error::ContractError;
use crate::msg::{ExecuteMsg, InstantiateMsg};
use crate::response::{ContractResponse, NftMessage, NftMessageModel, ResponseModel};
use crate::state::{Config, WhitelistUpdate};
use crate::u256::{u256_limit, U256};

verus! {

/// What `str::to_lowercase` returns for a string.
pub uninterp spec fn lowercase(s: Seq<char>) -> Seq<char>;

/// `str::to_lowercase`: the lowercase mapping of each character, by Unicode's
/// tables. Only the name of its result is stated.
#[verifier::external_body]
fn to_lowercase(s: &str) -> (r: String)
    ensures
        r@ == lowercase(s@),
{
    s.to_lowercase()
}

/// The id of the class that a contract at `contract_address` issues for
/// `symbol`: `"{symbol}-{contract_address}"`, lowercased.
pub open spec fn class_id_of(symbol: Seq<char>, contract_address: Seq<char>) -> Seq<char> {
    lowercase(symbol + "-"@ + contract_address)
}

pub fn class_id_for(symbol: &String, contract_address: &String) -> (r: String)
    ensures
        r@ == class_id_of(symbol@, contract_address@),
{
    let mut joined = symbol.clone();
    joined.append("-");
    joined.append(contract_address.as_str());
    to_lowercase(joined.as_str())
}

/// The ownership rule: the contract must have an owner, and the sender must
/// be that owner.
pub open spec fn owner_check(owner: Option<Seq<char>>, sender: Seq<char>) -> Result<
    (),
    ContractError,
> {
    match owner {
        None => Err(ContractError::NoOwner),
        Some(o) => if o == sender {
            Ok(())
        } else {
            Err(ContractError::NotOwner)
        },
    }
}

pub fn assert_owner(owner: &Option<String>, sender: &String) -> (r: Result<(), ContractError>)
    ensures
        r == owner_check(owner.deep_view(), sender@),
{
    match owner {
        None => Err(ContractError::NoOwner),
        Some(o) => if o.eq(sender) {
            Ok(())
        } else {
            Err(ContractError::NotOwner)
        },
    }
}

/// What the stored configuration holds after instantiation with `msg` by a
/// contract at `contract_address`.
pub open spec fn instantiated_config(
    config: Config,
    msg: InstantiateMsg,
    contract_address: Seq<char>,
) -> bool {
    &&& config.class_id@ == class_id_of(msg.symbol@, contract_address)
    &&& config.prereveal_token_uri@ == msg.prereveal_token_uri@
    &&& config.treasury_address@ == msg.treasury_address@
    &&& config.protocol_address@ == msg.protocol_address@
    &&& config.current_token_id == msg.current_token_id
    &&& config.mint_price == msg.mint_price
    &&& config.sale_start_time == msg.sale_start_time
    &&& config.sale_end_time == msg.sale_end_time
    &&& config.protocol_fee == msg.protocol_fee
    &&& config.max_total_mint == msg.max_total_mint
    &&& config.uri_status == msg.uri_status
}

/// The answer to instantiation: the owner and the class id, and the issuing
/// of the class.
pub open spec fn instantiate_response(
    msg: InstantiateMsg,
    sender: Seq<char>,
    contract_address: Seq<char>,
) -> ResponseModel {
    ResponseModel {
        attributes: seq![
            ("owner"@, sender),
            ("class_id"@, class_id_of(msg.symbol@, contract_address)),
        ],
        messages: seq![
            NftMessageModel::IssueClass {
                name: msg.name@,
                symbol: msg.symbol@,
                description: msg.description.deep_view(),
                uri: msg.uri.deep_view(),
                uri_hash: msg.uri_hash.deep_view(),
                data: msg.data.deep_view(),
                features: msg.features.deep_view(),
                royalty_rate: msg.royalty_rate.deep_view(),
            },
        ],
    }
}

/// Sets up the collection: the configuration to store and the answer that
/// issues the class. Recording the contract version and the owner is the
/// host's part.
pub fn instantiate(msg: InstantiateMsg, sender: &String, contract_address: &String) -> (r: (
    Config,
    ContractResponse,
))
    ensures
        instantiated_config(r.0, msg, contract_address@),
        r.1.deep_view() == instantiate_response(msg, sender@, contract_address@),
        r.1.deep_view().attributes == seq![
            ("owner"@, sender@),
            ("class_id"@, r.0.class_id@),
        ],
        r.1.deep_view().messages == seq![
            NftMessageModel::IssueClass {
                name: msg.name@,
                symbol: msg.symbol@,
                description: msg.description.deep_view(),
                uri: msg.uri.deep_view(),
                uri_hash: msg.uri_hash.deep_view(),
                data: msg.data.deep_view(),
                features: msg.features.deep_view(),
                royalty_rate: msg.royalty_rate.deep_view(),
            },
        ],
{
    let ghost m = msg;
    let class_id = class_id_for(&msg.symbol, contract_address);
    let issue = NftMessage::IssueClass {
        name: msg.name,
        symbol: msg.symbol.clone(),
        description: msg.description,
        uri: msg.uri,
        uri_hash: msg.uri_hash,
        data: msg.data,
        features: msg.features,
        royalty_rate: msg.royalty_rate,
    };
    let mut response = ContractResponse::new();
    response.add_attribute("owner", sender.clone());
    response.add_attribute("class_id", class_id.clone());
    response.add_message(issue);
    let config = Config {
        class_id,
        prereveal_token_uri: msg.prereveal_token_uri,
        treasury_address: msg.treasury_address,
        protocol_address: msg.protocol_address,
        current_token_id: msg.current_token_id,
        mint_price: msg.mint_price,
        sale_start_time: msg.sale_start_time,
        sale_end_time: msg.sale_end_time,
        protocol_fee: msg.protocol_fee,
        max_total_mint: msg.max_total_mint,
        uri_status: msg.uri_status,
    };
    assert(response.deep_view().attributes =~= instantiate_response(m, sender@, contract_address@).attributes);
    assert(response.deep_view().messages =~= instantiate_response(m, sender@, contract_address@).messages);
    (config, response)
}

/// The outcome of an operation that the ownership rule gates: the rule's
/// refusal, or else `resp`.
pub open spec fn gated(owner: Option<Seq<char>>, sender: Seq<char>, resp: ResponseModel) -> Result<
    ResponseModel,
    ContractError,
> {
    match owner_check(owner, sender) {
        Err(e) => Err(e),
        Ok(_) => Ok(resp),
    }
}

/// A result, with the response taken by its model.
pub open spec fn result_model(r: Result<ContractResponse, ContractError>) -> Result<
    ResponseModel,
    ContractError,
> {
    match r {
        Ok(resp) => Ok(resp.deep_view()),
        Err(e) => Err(e),
    }
}

/// The answer to an owner's operation on one token: three attributes and
/// the one message.
pub open spec fn token_response(
    method: Seq<char>,
    class_id: Seq<char>,
    id: Seq<char>,
    msg: NftMessageModel,
) -> ResponseModel {
    ResponseModel {
        attributes: seq![("method"@, method), ("class_id"@, class_id), ("id"@, id)],
        messages: seq![msg],
    }
}

fn build_token_response(method: &str, class_id: &String, id: String, msg: NftMessage) -> (r:
    ContractResponse)
    ensures
        r.deep_view() == token_response(method@, class_id@, id@, msg.deep_view()),
{
    let ghost id_v = id@;
    let ghost msg_v = msg.deep_view();
    let mut r = ContractResponse::new();
    r.add_attribute("method", method.to_string());
    r.add_attribute("class_id", class_id.clone());
    r.add_attribute("id", id);
    r.add_message(msg);
    assert(r.deep_view().attributes =~= token_response(method@, class_id@, id_v, msg_v).attributes);
    assert(r.deep_view().messages =~= token_response(method@, class_id@, id_v, msg_v).messages);
    r
}

/// Mints token `id` of the configured class.
pub fn mint(
    config: &Config,
    owner: &Option<String>,
    sender: &String,
    id: String,
    uri: Option<String>,
    uri_hash: Option<String>,
    data: Option<Vec<u8>>,
) -> (r: Result<ContractResponse, ContractError>)
    ensures
        result_model(r) == gated(
            owner.deep_view(),
            sender@,
            token_response(
                "mint"@,
                config.class_id@,
                id@,
                NftMessageModel::Mint {
                    class_id: config.class_id@,
                    id: id@,
                    uri: uri.deep_view(),
                    uri_hash: uri_hash.deep_view(),
                    data: data.deep_view(),
                },
            ),
        ),
{
    if let Err(e) = assert_owner(owner, sender) {
        return Err(e);
    }
    let msg = NftMessage::Mint { class_id: config.class_id.clone(), id: id.clone(), uri, uri_hash, data };
    Ok(build_token_response("mint", &config.class_id, id, msg))
}

/// Burns token `id` of the configured class.
pub fn burn(config: &Config, owner: &Option<String>, sender: &String, id: String) -> (r: Result<
    ContractResponse,
    ContractError,
>)
    ensures
        result_model(r) == gated(
            owner.deep_view(),
            sender@,
            token_response(
                "burn"@,
                config.class_id@,
                id@,
                NftMessageModel::Burn { class_id: config.class_id@, id: id@ },
            ),
        ),
{
    if let Err(e) = assert_owner(owner, sender) {
        return Err(e);
    }
    let msg = NftMessage::Burn { class_id: config.class_id.clone(), id: id.clone() };
    Ok(build_token_response("burn", &config.class_id, id, msg))
}

/// Freezes token `id` of the configured class.
pub fn freeze(config: &Config, owner: &Option<String>, sender: &String, id: String) -> (r: Result<
    ContractResponse,
    ContractError,
>)
    ensures
        result_model(r) == gated(
            owner.deep_view(),
            sender@,
            token_response(
                "freeze"@,
                config.class_id@,
                id@,
                NftMessageModel::Freeze { class_id: config.class_id@, id: id@ },
            ),
        ),
{
    if let Err(e) = assert_owner(owner, sender) {
        return Err(e);
    }
    let msg = NftMessage::Freeze { class_id: config.class_id.clone(), id: id.clone() };
    Ok(build_token_response("freeze", &config.class_id, id, msg))
}

/// Unfreezes token `id` of the configured class.
pub fn unfreeze(config: &Config, owner: &Option<String>, sender: &String, id: String) -> (r:
    Result<ContractResponse, ContractError>)
    ensures
        result_model(r) == gated(
            owner.deep_view(),
            sender@,
            token_response(
                "unfreeze"@,
                config.class_id@,
                id@,
                NftMessageModel::Unfreeze { class_id: config.class_id@, id: id@ },
            ),
        ),
{
    if let Err(e) = assert_owner(owner, sender) {
        return Err(e);
    }
    let msg = NftMessage::Unfreeze { class_id: config.class_id.clone(), id: id.clone() };
    Ok(build_token_response("unfreeze", &config.class_id, id, msg))
}

/// Sends token `id` of the configured class to `receiver`.
pub fn send(config: &Config, owner: &Option<String>, sender: &String, id: String, receiver: String) -> (r:
    Result<ContractResponse, ContractError>)
    ensures
        result_model(r) == gated(
            owner.deep_view(),
            sender@,
            token_response(
                "send"@,
                config.class_id@,
                id@,
                NftMessageModel::Send { class_id: config.class_id@, id: id@, receiver: receiver@ },
            ),
        ),
{
    if let Err(e) = assert_owner(owner, sender) {
        return Err(e);
    }
    let msg = NftMessage::Send { class_id: config.class_id.clone(), id: id.clone(), receiver };
    Ok(build_token_response("send", &config.class_id, id, msg))
}

/// A whitelist result, with the response taken by its model and the write by
/// its account and flag.
pub open spec fn listing_model(r: Result<(ContractResponse, WhitelistUpdate), ContractError>) -> Result<
    (ResponseModel, (Seq<char>, bool)),
    ContractError,
> {
    match r {
        Ok((resp, w)) => Ok((resp.deep_view(), (w.account@, w.whitelisted))),
        Err(e) => Err(e),
    }
}

/// The outcome of a whitelist change gated by the ownership rule.
pub open spec fn gated_listing(
    owner: Option<Seq<char>>,
    sender: Seq<char>,
    resp: ResponseModel,
    write: (Seq<char>, bool),
) -> Result<(ResponseModel, (Seq<char>, bool)), ContractError> {
    match owner_check(owner, sender) {
        Err(e) => Err(e),
        Ok(_) => Ok((resp, write)),
    }
}

/// Whitelists `account` for token `id` on the chain, and records the account
/// as allowed to purchase.
pub fn add_to_white_list(
    config: &Config,
    owner: &Option<String>,
    sender: &String,
    id: String,
    account: String,
) -> (r: Result<(ContractResponse, WhitelistUpdate), ContractError>)
    ensures
        listing_model(r) == gated_listing(
            owner.deep_view(),
            sender@,
            token_response(
                "add_to_white_list"@,
                config.class_id@,
                id@,
                NftMessageModel::AddToWhitelist {
                    class_id: config.class_id@,
                    id: id@,
                    account: account@,
                },
            ),
            (account@, true),
        ),
{
    if let Err(e) = assert_owner(owner, sender) {
        return Err(e);
    }
    let update = WhitelistUpdate { account: account.clone(), whitelisted: true };
    let msg = NftMessage::AddToWhitelist { class_id: config.class_id.clone(), id: id.clone(), account };
    Ok((build_token_response("add_to_white_list", &config.class_id, id, msg), update))
}

/// Removes `account` from the whitelist of token `id` on the chain, and
/// records the account as no longer allowed to purchase.
pub fn remove_from_white_list(
    config: &Config,
    owner: &Option<String>,
    sender: &String,
    id: String,
    account: String,
) -> (r: Result<(ContractResponse, WhitelistUpdate), ContractError>)
    ensures
        listing_model(r) == gated_listing(
            owner.deep_view(),
            sender@,
            token_response(
                "remove_from_white_list"@,
                config.class_id@,
                id@,
                NftMessageModel::RemoveFromWhitelist {
                    class_id: config.class_id@,
                    id: id@,
                    account: account@,
                },
            ),
            (account@, false),
        ),
{
    if let Err(e) = assert_owner(owner, sender) {
        return Err(e);
    }
    let update = WhitelistUpdate { account: account.clone(), whitelisted: false };
    let msg = NftMessage::RemoveFromWhitelist {
        class_id: config.class_id.clone(),
        id: id.clone(),
        account,
    };
    Ok((build_token_response("remove_from_white_list", &config.class_id, id, msg), update))
}

/// The purchase rule, checked in this order: the sender must be the owner,
/// whitelisted, and buy a positive count; the current token id plus the count
/// must fit in 256 bits and stay within the total mint cap; the price times
/// the count must fit in 256 bits and be covered by the funds sent.
pub open spec fn purchase_check(
    owner: Option<Seq<char>>,
    sender: Seq<char>,
    whitelisted: bool,
    count: nat,
    current_token_id: nat,
    max_total_mint: nat,
    mint_price: nat,
    funds: nat,
) -> Result<(), ContractError> {
    if owner_check(owner, sender) is Err {
        owner_check(owner, sender)
    } else if !whitelisted {
        Err(ContractError::NotWhitelisted)
    } else if count == 0 {
        Err(ContractError::ZeroCount)
    } else if current_token_id + count >= u256_limit() {
        Err(ContractError::TokenIdOverflow)
    } else if current_token_id + count > max_total_mint {
        Err(ContractError::MaxTotalMintExceeded)
    } else if mint_price * count >= u256_limit() {
        Err(ContractError::PriceOverflow)
    } else if funds < mint_price * count {
        Err(ContractError::InsufficientFunds)
    } else {
        Ok(())
    }
}

/// The answer to an admitted purchase: token `id` is minted and sent to
/// `receiver`.
pub open spec fn purchase_response(
    class_id: Seq<char>,
    id: Seq<char>,
    uri: Option<Seq<char>>,
    uri_hash: Option<Seq<char>>,
    data: Option<Seq<u8>>,
    receiver: Seq<char>,
) -> ResponseModel {
    ResponseModel {
        attributes: seq![
            ("method"@, "mint"@),
            ("method"@, "send"@),
            ("class_id"@, class_id),
            ("id"@, id),
        ],
        messages: seq![
            NftMessageModel::Mint { class_id, id, uri, uri_hash, data },
            NftMessageModel::Send { class_id, id, receiver },
        ],
    }
}

/// Purchases `count` tokens: where the purchase rule admits it, token `id`
/// is minted and sent to `receiver`. `whitelisted` is the sender's whitelist
/// entry and `funds` the amount sent with the message. The stored
/// configuration, the current token id among it, is left as it is.
pub fn purchase(
    config: &Config,
    owner: &Option<String>,
    sender: &String,
    whitelisted: bool,
    funds: u128,
    id: String,
    count: U256,
    uri: Option<String>,
    uri_hash: Option<String>,
    data: Option<Vec<u8>>,
    receiver: String,
) -> (r: Result<ContractResponse, ContractError>)
    ensures
        result_model(r) == match purchase_check(
            owner.deep_view(),
            sender@,
            whitelisted,
            count.value(),
            config.current_token_id.value(),
            config.max_total_mint.value(),
            config.mint_price.value(),
            funds as nat,
        ) {
            Err(e) => Err(e),
            Ok(_) => Ok(
                purchase_response(
                    config.class_id@,
                    id@,
                    uri.deep_view(),
                    uri_hash.deep_view(),
                    data.deep_view(),
                    receiver@,
                ),
            ),
        },
        r matches Ok(resp) ==> {
            &&& resp.deep_view().messages.len() == 2
            &&& resp.deep_view().messages[0] == NftMessageModel::Mint {
                class_id: config.class_id@,
                id: id@,
                uri: uri.deep_view(),
                uri_hash: uri_hash.deep_view(),
                data: data.deep_view(),
            }
            &&& resp.deep_view().messages[1] == NftMessageModel::Send {
                class_id: config.class_id@,
                id: id@,
                receiver: receiver@,
            }
        },
{
    if let Err(e) = assert_owner(owner, sender) {
        return Err(e);
    }
    if !whitelisted {
        return Err(ContractError::NotWhitelisted);
    }
    let zero = U256::from_u128(0);
    if !zero.lt(&count) {
        return Err(ContractError::ZeroCount);
    }
    let minted = match config.current_token_id.checked_add(&count) {
        Some(total) => total,
        None => return Err(ContractError::TokenIdOverflow),
    };
    if config.max_total_mint.lt(&minted) {
        return Err(ContractError::MaxTotalMintExceeded);
    }
    let cost = match config.mint_price.checked_mul(&count) {
        Some(c) => c,
        None => return Err(ContractError::PriceOverflow),
    };
    let paid = U256::from_u128(funds);
    if paid.lt(&cost) {
        return Err(ContractError::InsufficientFunds);
    }
    let ghost expected = purchase_response(
        config.class_id@,
        id@,
        uri.deep_view(),
        uri_hash.deep_view(),
        data.deep_view(),
        receiver@,
    );
    let mint_msg = NftMessage::Mint {
        class_id: config.class_id.clone(),
        id: id.clone(),
        uri,
        uri_hash,
        data,
    };
    let send_msg = NftMessage::Send { class_id: config.class_id.clone(), id: id.clone(), receiver };
    let mut response = ContractResponse::new();
    response.add_attribute("method", "mint".to_string());
    response.add_attribute("method", "send".to_string());
    response.add_attribute("class_id", config.class_id.clone());
    response.add_attribute("id", id);
    response.add_message(mint_msg);
    response.add_message(send_msg);
    assert(response.deep_view().attributes =~= expected.attributes);
    assert(response.deep_view().messages =~= expected.messages);
    Ok(response)
}

/// What an execute message does besides answering: at most one whitelist
/// write.
#[derive(Clone, Debug, PartialEq, Eq)]
pub struct ExecuteOutcome {
    pub response: ContractResponse,
    pub whitelist_update: Option<WhitelistUpdate>,
}

/// The mathematical content of an [`ExecuteOutcome`].
pub struct OutcomeModel {
    pub response: ResponseModel,
    pub whitelist_update: Option<(Seq<char>, bool)>,
}

impl DeepView for ExecuteOutcome {
    type V = OutcomeModel;

    open spec fn deep_view(&self) -> OutcomeModel {
        OutcomeModel {
            response: self.response.deep_view(),
            whitelist_update: match self.whitelist_update {
                Some(w) => Some((w.account@, w.whitelisted)),
                None => None,
            },
        }
    }
}

pub open spec fn outcome_result_model(r: Result<ExecuteOutcome, ContractError>) -> Result<
    OutcomeModel,
    ContractError,
> {
    match r {
        Ok(o) => Ok(o.deep_view()),
        Err(e) => Err(e),
    }
}

/// An outcome with no whitelist write.
pub open spec fn without_write(r: Result<ResponseModel, ContractError>) -> Result<
    OutcomeModel,
    ContractError,
> {
    match r {
        Ok(resp) => Ok(OutcomeModel { response: resp, whitelist_update: None }),
        Err(e) => Err(e),
    }
}

/// An outcome with one whitelist write.
pub open spec fn with_write(r: Result<(ResponseModel, (Seq<char>, bool)), ContractError>) -> Result<
    OutcomeModel,
    ContractError,
> {
    match r {
        Ok((resp, w)) => Ok(OutcomeModel { response: resp, whitelist_update: Some(w) }),
        Err(e) => Err(e),
    }
}

/// What an execute message gives, message by message.
pub open spec fn execute_spec(
    msg: ExecuteMsg,
    config: Config,
    owner: Option<Seq<char>>,
    sender: Seq<char>,
    whitelisted: bool,
    funds: nat,
) -> Result<OutcomeModel, ContractError> {
    let class_id = config.class_id@;
    match msg {
        ExecuteMsg::Purchase { count, id, uri, uri_hash, data, receiver } => match purchase_check(
            owner,
            sender,
            whitelisted,
            count.value(),
            config.current_token_id.value(),
            config.max_total_mint.value(),
            config.mint_price.value(),
            funds,
        ) {
            Err(e) => Err(e),
            Ok(_) => without_write(
                Ok(
                    purchase_response(
                        class_id,
                        id@,
                        uri.deep_view(),
                        uri_hash.deep_view(),
                        data.deep_view(),
                        receiver@,
                    ),
                ),
            ),
        },
        ExecuteMsg::MintAndSend { .. } => match owner_check(owner, sender) {
            Err(e) => Err(e),
            Ok(_) => Err(ContractError::UnsupportedMessage),
        },
        ExecuteMsg::Mint { id, uri, uri_hash, data } => without_write(
            gated(
                owner,
                sender,
                token_response(
                    "mint"@,
                    class_id,
                    id@,
                    NftMessageModel::Mint {
                        class_id,
                        id: id@,
                        uri: uri.deep_view(),
                        uri_hash: uri_hash.deep_view(),
                        data: data.deep_view(),
                    },
                ),
            ),
        ),
        ExecuteMsg::Burn { id } => without_write(
            gated(
                owner,
                sender,
                token_response("burn"@, class_id, id@, NftMessageModel::Burn { class_id, id: id@ }),
            ),
        ),
        ExecuteMsg::Freeze { id } => without_write(
            gated(
                owner,
                sender,
                token_response(
                    "freeze"@,
                    class_id,
                    id@,
                    NftMessageModel::Freeze { class_id, id: id@ },
                ),
            ),
        ),
        ExecuteMsg::Unfreeze { id } => without_write(
            gated(
                owner,
                sender,
                token_response(
                    "unfreeze"@,
                    class_id,
                    id@,
                    NftMessageModel::Unfreeze { class_id, id: id@ },
                ),
            ),
        ),
        ExecuteMsg::AddToWhitelist { id, account } => with_write(
            gated_listing(
                owner,
                sender,
                token_response(
                    "add_to_white_list"@,
                    class_id,
                    id@,
                    NftMessageModel::AddToWhitelist { class_id, id: id@, account: account@ },
                ),
                (account@, true),
            ),
        ),
        ExecuteMsg::RemoveFromWhitelist { id, account } => with_write(
            gated_listing(
                owner,
                sender,
                token_response(
                    "remove_from_white_list"@,
                    class_id,
                    id@,
                    NftMessageModel::RemoveFromWhitelist { class_id, id: id@, account: account@ },
                ),
                (account@, false),
            ),
        ),
        ExecuteMsg::Send { id, receiver } => without_write(
            gated(
                owner,
                sender,
                token_response(
                    "send"@,
                    class_id,
                    id@,
                    NftMessageModel::Send { class_id, id: id@, receiver: receiver@ },
                ),
            ),
        ),
    }
}

fn plain_outcome(r: Result<ContractResponse, ContractError>) -> (o: Result<ExecuteOutcome, ContractError>)
    ensures
        outcome_result_model(o) == without_write(result_model(r)),
{
    match r {
        Ok(response) => Ok(ExecuteOutcome { response, whitelist_update: None }),
        Err(e) => Err(e),
    }
}

fn listing_outcome(r: Result<(ContractResponse, WhitelistUpdate), ContractError>) -> (o: Result<
    ExecuteOutcome,
    ContractError,
>)
    ensures
        outcome_result_model(o) == with_write(listing_model(r)),
{
    match r {
        Ok((response, update)) => Ok(ExecuteOutcome { response, whitelist_update: Some(update) }),
        Err(e) => Err(e),
    }
}

/// Runs an execute message sent by `sender` against the stored
/// configuration, the owner on record, the sender's whitelist entry (read
/// for purchases only) and the funds sent.
pub fn execute(
    msg: ExecuteMsg,
    config: &Config,
    owner: &Option<String>,
    sender: &String,
    whitelisted: bool,
    funds: u128,
) -> (r: Result<ExecuteOutcome, ContractError>)
    ensures
        outcome_result_model(r) == execute_spec(
            msg,
            *config,
            owner.deep_view(),
            sender@,
            whitelisted,
            funds as nat,
        ),
{
    match msg {
        ExecuteMsg::Purchase { count, id, uri, uri_hash, data, receiver } => plain_outcome(
            purchase(
                config,
                owner,
                sender,
                whitelisted,
                funds,
                id,
                count,
                uri,
                uri_hash,
                data,
                receiver,
            ),
        ),
        ExecuteMsg::MintAndSend { .. } => match assert_owner(owner, sender) {
            Err(e) => Err(e),
            Ok(()) => Err(ContractError::UnsupportedMessage),
        },
        ExecuteMsg::Mint { id, uri, uri_hash, data } => plain_outcome(
            mint(config, owner, sender, id, uri, uri_hash, data),
        ),
        ExecuteMsg::Burn { id } => plain_outcome(burn(config, owner, sender, id)),
        ExecuteMsg::Freeze { id } => plain_outcome(freeze(config, owner, sender, id)),
        ExecuteMsg::Unfreeze { id } => plain_outcome(unfreeze(config, owner, sender, id)),
        ExecuteMsg::AddToWhitelist { id, account } => listing_outcome(
            add_to_white_list(config, owner, sender, id, account),
        ),
        ExecuteMsg::RemoveFromWhitelist { id, account } => listing_outcome(
            remove_from_white_list(config, owner, sender, id, account),
        ),
        ExecuteMsg::Send { id, receiver } => plain_outcome(send(config, owner, sender, id, receiver)),
    }
}

} // verus!
