use vstd::prelude::*;

use crate::address::Address;
use crate::error::{outcome, EscrowError};
use crate::token::{credited, transfer_checked, transfer_error, Mint, TokenAccount};

verus! {

/// The persistent record of one open offer.
#[derive(Clone, Copy, Debug)]
pub struct Escrow {
    pub seed: u64,
    pub bump: u8,
    pub initializer: Address,
    pub mint_a: Address,
    pub mint_b: Address,
    pub initializer_amount: u64,
    pub taker_amount: u64,
}

/// The canonical bumps found when the accounts of an initialization were derived.
#[derive(Clone, Copy, Debug)]
pub struct InitializeBumps {
    pub escrow: u8,
}

/// The accounts of a checked transfer: source, mint, destination and signing authority.
#[derive(Clone, Copy, Debug)]
pub struct TransferChecked {
    pub from: TokenAccount,
    pub mint: Mint,
    pub to: TokenAccount,
    pub authority: Address,
}

/// The accounts that an initialization reads and writes.
#[derive(Clone, Copy, Debug)]
pub struct Initialize {
    /// The signer who creates the offer.
    pub initializer: Address,
    pub mint_a: Mint,
    pub mint_b: Mint,
    /// The initializer's account of asset A, which pays the deposit.
    pub initializer_ata_a: TokenAccount,
    /// The escrow record's derived address, which must own the vault.
    pub escrow_key: Address,
    /// The escrow record, written by `initialize_escrow`.
    pub escrow: Escrow,
    /// The vault of asset A, owned by the escrow record's derived address.
    pub vault: TokenAccount,
}

/// The record that an initialization with these inputs writes.
pub open spec fn escrow_of(
    ctx: Initialize,
    seed: u64,
    bump: u8,
    initializer_amount: u64,
    taker_amount: u64,
) -> Escrow {
    Escrow {
        seed,
        bump,
        initializer: ctx.initializer,
        mint_a: ctx.mint_a.key,
        mint_b: ctx.mint_b.key,
        initializer_amount,
        taker_amount,
    }
}

/// The first reason a deposit is refused, if any: a vault that the escrow record
/// does not own, or a refused transfer.
pub open spec fn deposit_error(ctx: Initialize, initializer_amount: u64) -> Option<EscrowError> {
    if ctx.vault.owner != ctx.escrow_key {
        Some(EscrowError::Unauthorized)
    } else {
        transfer_error(
            ctx.initializer_ata_a,
            ctx.vault,
            ctx.mint_a,
            ctx.initializer,
            initializer_amount,
            ctx.mint_a.decimals,
        )
    }
}

impl Initialize {
    /// Fills the escrow record from the inputs and the accounts.
    pub fn initialize_escrow(
        &mut self,
        seed: u64,
        bumps: &InitializeBumps,
        initializer_amount: u64,
        taker_amount: u64,
    ) -> (r: Result<(), EscrowError>)
        ensures
            r == Ok::<(), EscrowError>(()),
            *final(self) == (Initialize {
                escrow: escrow_of(*old(self), seed, bumps.escrow, initializer_amount, taker_amount),
                ..*old(self)
            }),
    {
        self.escrow =
            Escrow {
                seed,
                bump: bumps.escrow,
                initializer: self.initializer,
                mint_a: self.mint_a.key,
                mint_b: self.mint_b.key,
                initializer_amount,
                taker_amount,
            };
        Ok(())
    }

    /// Moves `initializer_amount` of asset A from the initializer's account into the vault,
    /// by a checked transfer signed by the initializer. A vault that the escrow record
    /// does not own is refused.
    pub fn deposit(&mut self, initializer_amount: u64) -> (r: Result<(), EscrowError>)
        ensures
            r == outcome(deposit_error(*old(self), initializer_amount)),
            r is Ok ==> *final(self) == (Initialize {
                initializer_ata_a: credited(old(self).initializer_ata_a, -initializer_amount),
                vault: credited(old(self).vault, initializer_amount as int),
                ..*old(self)
            }),
            r is Err ==> *final(self) == *old(self),
    {
        if !self.vault.owner.same_as(&self.escrow_key) {
            return Err(EscrowError::Unauthorized);
        }
        let mut ctx = self.into_deposit_context();
        let r = transfer_checked(
            &mut ctx.from,
            &mut ctx.to,
            &ctx.mint,
            ctx.authority,
            initializer_amount,
            self.mint_a.decimals,
        );
        if r.is_ok() {
            self.initializer_ata_a = ctx.from;
            self.vault = ctx.to;
        }
        r
    }

    /// The accounts of the deposit: from the initializer's account to the vault,
    /// signed by the initializer.
    pub fn into_deposit_context(&self) -> (r: TransferChecked)
        ensures
            r == (TransferChecked {
                from: self.initializer_ata_a,
                mint: self.mint_a,
                to: self.vault,
                authority: self.initializer,
            }),
    {
        TransferChecked {
            from: self.initializer_ata_a,
            mint: self.mint_a,
            to: self.vault,
            authority: self.initializer,
        }
    }
}

} // verus!
