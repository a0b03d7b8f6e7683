//! Why an execute message is refused.
use vstd::prelude::*;

verus! {

/// The refusals of the contract's own rules. Storage and address failures
/// are reported by the host around the library.
#[derive(Clone, Copy, Debug, PartialEq, Eq, Structural)]
pub enum ContractError {
    /// The contract's ownership has been renounced.
    NoOwner,
    /// The sender is not the contract's owner.
    NotOwner,
    /// The sender is not whitelisted for purchases.
    NotWhitelisted,
    /// A purchase of zero tokens.
    ZeroCount,
    /// The current token id plus the count does not fit in 256 bits.
    TokenIdOverflow,
    /// The current token id plus the count is above the total mint cap.
    MaxTotalMintExceeded,
    /// The mint price times the count does not fit in 256 bits.
    PriceOverflow,
    /// The funds sent are below the mint price times the count.
    InsufficientFunds,
    /// A message that the contract does not handle.
    UnsupportedMessage,
}

} // verus!
