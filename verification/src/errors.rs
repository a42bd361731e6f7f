use vstd::prelude::*;

verus! {

/// Everything that can make a ledger operation fail.
///
/// Every failure is detected during validation, before any state is
/// written, so an `Err` always leaves the ledger exactly as it was.
#[derive(Clone, Copy, Debug, PartialEq, Eq, Structural)]
pub enum Error {
    /// The id counter is at the maximum representable value; no id is left.
    CounterOverflow,
    /// The named asset was never minted.
    AssetNotExist,
    /// A breeding parent does not exist.
    InvalidAssetIndex,
    /// The caller does not own the asset it acts on.
    NotOwner,
    /// Breeding needs two distinct parents.
    SameParentIndex,
    /// A transfer to the current owner is rejected, not silently accepted.
    SameOwnerTransfer,
    /// The asset is not listed for sale.
    NoPriceSet,
    /// The offered amount is below the listed price.
    PriceTooLow,
    /// The owner of an asset cannot buy it from themselves.
    BuyerIsOwner,
    /// The buyer's free balance does not cover the offered amount.
    InsufficientBalance,
}

} // verus!
