//! A two-party escrow: an initializer locks asset A in a vault owned by a
//! program-derived address and asks an amount of asset B; a taker completes the
//! swap atomically, or the initializer cancels and takes asset A back.

pub mod address;
pub mod error;
pub mod token;
pub mod initialize;
pub mod derive;
pub mod ledger;
pub mod laws;
