use vstd::prelude::*;

verus! {

/// Every way an escrow operation can fail; a failed operation changes nothing.
#[derive(Clone, Copy, Debug, PartialEq, Eq, Structural)]
pub enum EscrowError {
    /// The paying account holds less than the amount it must pay.
    InsufficientFunds,
    /// An offer already exists for this initializer and seed.
    DuplicateOffer,
    /// No open offer exists for this initializer and seed.
    OfferNotFound,
    /// A supplied account or mint is of another asset than the offer records.
    AssetMismatch,
    /// The signer, or the owner of a supplied account, is not the party required.
    Unauthorized,
    /// The decimals given with a transfer differ from the mint's.
    DecimalMismatch,
    /// A credit would take a balance past the largest representable amount.
    AmountOverflow,
    /// An account index is out of range, or one account was supplied twice.
    InvalidAccount,
    /// No program-derived address could be found for the offer's seeds.
    AddressDerivationFailed,
}

/// The outcome of an operation whose refusal reason, if any, is `e`.
pub open spec fn outcome(e: Option<EscrowError>) -> Result<(), EscrowError> {
    match e {
        Some(err) => Err(err),
        None => Ok(()),
    }
}

} // verus!
