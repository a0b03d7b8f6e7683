//! What a transaction answers: attributes for the event log, and the chain
//! messages that the contract dispatches (Coreum's asset-NFT and NFT modules).
use vstd::prelude::*;

verus! {

/// A message to the chain's NFT modules.
#[derive(Clone, Debug, PartialEq, Eq)]
pub enum NftMessage {
    IssueClass {
        name: String,
        symbol: String,
        description: Option<String>,
        uri: Option<String>,
        uri_hash: Option<String>,
        data: Option<Vec<u8>>,
        features: Option<Vec<u32>>,
        royalty_rate: Option<String>,
    },
    Mint {
        class_id: String,
        id: String,
        uri: Option<String>,
        uri_hash: Option<String>,
        data: Option<Vec<u8>>,
    },
    Burn { class_id: String, id: String },
    Freeze { class_id: String, id: String },
    Unfreeze { class_id: String, id: String },
    AddToWhitelist { class_id: String, id: String, account: String },
    RemoveFromWhitelist { class_id: String, id: String, account: String },
    Send { class_id: String, id: String, receiver: String },
}

/// The mathematical content of an [`NftMessage`].
pub enum NftMessageModel {
    IssueClass {
        name: Seq<char>,
        symbol: Seq<char>,
        description: Option<Seq<char>>,
        uri: Option<Seq<char>>,
        uri_hash: Option<Seq<char>>,
        data: Option<Seq<u8>>,
        features: Option<Seq<u32>>,
        royalty_rate: Option<Seq<char>>,
    },
    Mint {
        class_id: Seq<char>,
        id: Seq<char>,
        uri: Option<Seq<char>>,
        uri_hash: Option<Seq<char>>,
        data: Option<Seq<u8>>,
    },
    Burn { class_id: Seq<char>, id: Seq<char> },
    Freeze { class_id: Seq<char>, id: Seq<char> },
    Unfreeze { class_id: Seq<char>, id: Seq<char> },
    AddToWhitelist { class_id: Seq<char>, id: Seq<char>, account: Seq<char> },
    RemoveFromWhitelist { class_id: Seq<char>, id: Seq<char>, account: Seq<char> },
    Send { class_id: Seq<char>, id: Seq<char>, receiver: Seq<char> },
}

impl NftMessageModel {
    /// The class a message acts on; `None` for the issuing of a new class.
    pub open spec fn target_class(self) -> Option<Seq<char>> {
        match self {
            NftMessageModel::IssueClass { .. } => None,
            NftMessageModel::Mint { class_id, .. } => Some(class_id),
            NftMessageModel::Burn { class_id, .. } => Some(class_id),
            NftMessageModel::Freeze { class_id, .. } => Some(class_id),
            NftMessageModel::Unfreeze { class_id, .. } => Some(class_id),
            NftMessageModel::AddToWhitelist { class_id, .. } => Some(class_id),
            NftMessageModel::RemoveFromWhitelist { class_id, .. } => Some(class_id),
            NftMessageModel::Send { class_id, .. } => Some(class_id),
        }
    }
}

impl DeepView for NftMessage {
    type V = NftMessageModel;

    open spec fn deep_view(&self) -> NftMessageModel {
        match self {
            NftMessage::IssueClass {
                name,
                symbol,
                description,
                uri,
                uri_hash,
                data,
                features,
                royalty_rate,
            } => NftMessageModel::IssueClass {
                name: name@,
                symbol: symbol@,
                description: description.deep_view(),
                uri: uri.deep_view(),
                uri_hash: uri_hash.deep_view(),
                data: data.deep_view(),
                features: features.deep_view(),
                royalty_rate: royalty_rate.deep_view(),
            },
            NftMessage::Mint { class_id, id, uri, uri_hash, data } => NftMessageModel::Mint {
                class_id: class_id@,
                id: id@,
                uri: uri.deep_view(),
                uri_hash: uri_hash.deep_view(),
                data: data.deep_view(),
            },
            NftMessage::Burn { class_id, id } => NftMessageModel::Burn {
                class_id: class_id@,
                id: id@,
            },
            NftMessage::Freeze { class_id, id } => NftMessageModel::Freeze {
                class_id: class_id@,
                id: id@,
            },
            NftMessage::Unfreeze { class_id, id } => NftMessageModel::Unfreeze {
                class_id: class_id@,
                id: id@,
            },
            NftMessage::AddToWhitelist { class_id, id, account } =>
                NftMessageModel::AddToWhitelist { class_id: class_id@, id: id@, account: account@ },
            NftMessage::RemoveFromWhitelist { class_id, id, account } =>
                NftMessageModel::RemoveFromWhitelist {
                    class_id: class_id@,
                    id: id@,
                    account: account@,
                },
            NftMessage::Send { class_id, id, receiver } => NftMessageModel::Send {
                class_id: class_id@,
                id: id@,
                receiver: receiver@,
            },
        }
    }
}

/// The answer to a transaction: event attributes, in order, and the
/// messages to dispatch, in order.
#[derive(Clone, Debug, PartialEq, Eq)]
pub struct ContractResponse {
    pub attributes: Vec<(String, String)>,
    pub messages: Vec<NftMessage>,
}

/// The mathematical content of a [`ContractResponse`].
pub struct ResponseModel {
    pub attributes: Seq<(Seq<char>, Seq<char>)>,
    pub messages: Seq<NftMessageModel>,
}

impl DeepView for ContractResponse {
    type V = ResponseModel;

    open spec fn deep_view(&self) -> ResponseModel {
        ResponseModel {
            attributes: self.attributes.deep_view(),
            messages: self.messages.deep_view(),
        }
    }
}

impl ContractResponse {
    /// A response with no attributes and no messages.
    pub fn new() -> (r: ContractResponse)
        ensures
            r.deep_view().attributes == Seq::<(Seq<char>, Seq<char>)>::empty(),
            r.deep_view().messages == Seq::<NftMessageModel>::empty(),
    {
        let r = ContractResponse { attributes: Vec::new(), messages: Vec::new() };
        assert(r.deep_view().attributes =~= Seq::<(Seq<char>, Seq<char>)>::empty());
        assert(r.deep_view().messages =~= Seq::<NftMessageModel>::empty());
        r
    }

    /// Appends the attribute `key = value`.
    pub fn add_attribute(&mut self, key: &str, value: String)
        ensures
            final(self).deep_view().attributes == old(self).deep_view().attributes.push(
                (key@, value@),
            ),
            final(self).deep_view().messages == old(self).deep_view().messages,
    {
        let ghost before = self.attributes.deep_view();
        self.attributes.push((key.to_string(), value));
        assert(self.attributes.deep_view() =~= before.push((key@, value@)));
    }

    /// Appends a message to dispatch.
    pub fn add_message(&mut self, msg: NftMessage)
        ensures
            final(self).deep_view().attributes == old(self).deep_view().attributes,
            final(self).deep_view().messages == old(self).deep_view().messages.push(
                msg.deep_view(),
            ),
    {
        let ghost before = self.messages.deep_view();
        let ghost m = msg.deep_view();
        self.messages.push(msg);
        assert(self.messages.deep_view() =~= before.push(m));
    }
}

} // verus!
