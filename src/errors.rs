use vstd::prelude::*;

verus! {

/// Every way an operation of the marketplace can be refused.
#[derive(Clone, Copy, Debug, PartialEq, Eq, Structural)]
pub enum ErrorCode {
    /// A supplied derivation salt is not the canonical one for its seeds.
    BumpSeedNotInHashMap,
    /// An account's address is not the one derived from its seeds.
    DerivedKeyInvalid,
    /// A trade state record that should be open holds no data.
    TradeStateDoesNotExist,
    /// Neither (or both) of the accepted signers authenticated the call.
    NoValidSignerPresent,
    /// A listing lacks the signer its price and flags call for.
    SaleRequiresSigner,
    /// Both the wallet and the authority signed a listing.
    SaleRequiresExactlyOneSigner,
    /// The asset account holds, or has delegated, too little of the asset.
    InvalidTokenAmount,
    /// A balance is too low for the requested movement of funds.
    InsufficientFunds,
    /// Fee or balance arithmetic left the range of its integer type.
    NumericalOverflow,
    /// A fee rate above ten thousand basis points.
    InvalidBasisPoints,
    /// Two addresses that must agree do not.
    PublicKeyMismatch,
    /// A receiving token account carries a delegate.
    BuyerATACannotHaveDelegate,
    /// The marketplace requires its authority to sign this action.
    RequiresSignOff,
    /// Two views of one account disagree on its balance.
    AccountViewMismatch,
}

} // verus!
