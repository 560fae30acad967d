use vstd::prelude::*;

use crate::address::Address;
use crate::derive::{escrow_seeds_spec, program_address_of};
use crate::error::EscrowError;
use crate::initialize::{deposit_error, escrow_of, Escrow, Initialize};
use crate::token::credited;
use crate::ledger::{has_offer, offer_index, offer_matches, LedgerState};

verus! {

/// A successful initialization leaves exactly one open offer for `(signer, seed)`;
/// its vault holds `initializer_amount` of asset A, and its record holds the inputs.
pub proof fn initialize_records_inputs(
    s: LedgerState,
    signer: Address,
    seed: u64,
    mint_a: int,
    mint_b: int,
    initializer_ata_a: int,
    initializer_amount: u64,
    taker_amount: u64,
)
    requires
        s.valid(),
        s.initialize_error(signer, seed, mint_a, mint_b, initializer_ata_a, initializer_amount)
            is None,
    ensures
        ({
            let post = s.initialized(
                signer,
                seed,
                mint_a,
                mint_b,
                initializer_ata_a,
                initializer_amount,
                taker_amount,
            );
            let o = post.offers[offer_index(post.offers, signer, seed)];
            let (key, bump) = program_address_of(s.program_id, escrow_seeds_spec(signer, seed))->Some_0;
            &&& has_offer(post.offers, signer, seed)
            &&& o.vault.amount == initializer_amount
            &&& o.vault.mint == s.mints[mint_a].key
            &&& o.vault.owner == o.key
            &&& o.key == key
            &&& o.escrow == (Escrow {
                seed,
                bump,
                initializer: signer,
                mint_a: s.mints[mint_a].key,
                mint_b: s.mints[mint_b].key,
                initializer_amount,
                taker_amount,
            })
            &&& post.accounts[initializer_ata_a].amount == s.accounts[initializer_ata_a].amount
                - initializer_amount
        }),
{
    let post = s.initialized(
        signer,
        seed,
        mint_a,
        mint_b,
        initializer_ata_a,
        initializer_amount,
        taker_amount,
    );
    let n = s.offers.len() as int;
    assert(offer_matches(post.offers[n], signer, seed));
    let j = offer_index(post.offers, signer, seed);
    if j < n {
        assert(offer_matches(s.offers[j], signer, seed));
    }
}

/// An initialization whose deposit exceeds the paying account's balance is refused,
/// and so changes nothing; where every other check passes, the refusal is
/// `InsufficientFunds`.
pub proof fn initialize_underfunded_refused(
    s: LedgerState,
    signer: Address,
    seed: u64,
    mint_a: int,
    mint_b: int,
    initializer_ata_a: int,
    initializer_amount: u64,
)
    requires
        0 <= initializer_ata_a < s.accounts.len(),
        s.accounts[initializer_ata_a].amount < initializer_amount,
    ensures
        s.initialize_error(signer, seed, mint_a, mint_b, initializer_ata_a, initializer_amount)
            is Some,
        0 <= mint_a < s.mints.len() && 0 <= mint_b < s.mints.len() && !has_offer(
            s.offers,
            signer,
            seed,
        ) && s.accounts[initializer_ata_a].owner == signer && s.accounts[initializer_ata_a].mint
            == s.mints[mint_a].key ==> s.initialize_error(
            signer,
            seed,
            mint_a,
            mint_b,
            initializer_ata_a,
            initializer_amount,
        ) == Some(EscrowError::InsufficientFunds),
{
}

/// A successful exchange credits the taker with the vault's `initializer_amount` of
/// asset A and the initializer with `taker_amount` of asset B, debits the taker by
/// `taker_amount`, and closes the offer.
pub proof fn exchange_settles(
    s: LedgerState,
    taker: Address,
    initializer: Address,
    seed: u64,
    mint_a: int,
    mint_b: int,
    taker_ata_a: int,
    taker_ata_b: int,
    initializer_ata_b: int,
)
    requires
        s.valid(),
        s.exchange_error(
            taker,
            initializer,
            seed,
            mint_a,
            mint_b,
            taker_ata_a,
            taker_ata_b,
            initializer_ata_b,
        ) is None,
    ensures
        ({
            let o = s.offers[offer_index(s.offers, initializer, seed)];
            let post = s.exchanged(initializer, seed, taker_ata_a, taker_ata_b, initializer_ata_b);
            &&& post.accounts[taker_ata_a].amount == s.accounts[taker_ata_a].amount
                + o.escrow.initializer_amount
            &&& post.accounts[initializer_ata_b].amount == s.accounts[initializer_ata_b].amount
                + o.escrow.taker_amount
            &&& post.accounts[taker_ata_b].amount == s.accounts[taker_ata_b].amount
                - o.escrow.taker_amount
            &&& forall|k: int|
                0 <= k < s.accounts.len() && k != taker_ata_a && k != taker_ata_b && k
                    != initializer_ata_b ==> #[trigger] post.accounts[k] == s.accounts[k]
            &&& !has_offer(post.offers, initializer, seed)
        }),
{
    lemma_closed_offer_gone(s, initializer, seed);
}

/// Once an offer is closed, no other offer of the same `(initializer, seed)` is open.
proof fn lemma_closed_offer_gone(s: LedgerState, initializer: Address, seed: u64)
    requires
        s.valid(),
        has_offer(s.offers, initializer, seed),
    ensures
        !has_offer(s.offers.remove(offer_index(s.offers, initializer, seed)), initializer, seed),
{
    let i = offer_index(s.offers, initializer, seed);
    let rest = s.offers.remove(i);
    assert forall|k: int| 0 <= k < rest.len() implies !#[trigger] offer_matches(
        rest[k],
        initializer,
        seed,
    ) by {
        let ok = if k < i { k } else { k + 1 };
        if offer_matches(rest[k], initializer, seed) {
            assert(rest[k] == s.offers[ok]);
            assert(offer_matches(s.offers[i], s.offers[ok].escrow.initializer, s.offers[ok].escrow.seed));
        }
    }
}

/// An exchange that supplies a mint or an account of another asset than the offer
/// records is refused with `AssetMismatch`, and so changes nothing.
pub proof fn exchange_asset_mismatch(
    s: LedgerState,
    taker: Address,
    initializer: Address,
    seed: u64,
    mint_a: int,
    mint_b: int,
    taker_ata_a: int,
    taker_ata_b: int,
    initializer_ata_b: int,
)
    requires
        has_offer(s.offers, initializer, seed),
        0 <= mint_a < s.mints.len(),
        0 <= mint_b < s.mints.len(),
        0 <= taker_ata_a < s.accounts.len(),
        0 <= taker_ata_b < s.accounts.len(),
        0 <= initializer_ata_b < s.accounts.len(),
        taker_ata_a != taker_ata_b,
        taker_ata_a != initializer_ata_b,
        taker_ata_b != initializer_ata_b,
        ({
            let o = s.offers[offer_index(s.offers, initializer, seed)];
            ||| s.mints[mint_a].key != o.escrow.mint_a
            ||| s.mints[mint_b].key != o.escrow.mint_b
            ||| s.accounts[taker_ata_a].mint != o.escrow.mint_a
            ||| s.accounts[taker_ata_b].mint != o.escrow.mint_b
            ||| s.accounts[initializer_ata_b].mint != o.escrow.mint_b
        }),
    ensures
        s.exchange_error(
            taker,
            initializer,
            seed,
            mint_a,
            mint_b,
            taker_ata_a,
            taker_ata_b,
            initializer_ata_b,
        ) == Some(EscrowError::AssetMismatch),
{
}

/// A cancellation signed by anyone but the offer's initializer is refused with
/// `Unauthorized`, and so leaves the vault as it was.
pub proof fn cancel_by_stranger_refused(
    s: LedgerState,
    signer: Address,
    initializer: Address,
    seed: u64,
    mint_a: int,
    initializer_ata_a: int,
)
    requires
        has_offer(s.offers, initializer, seed),
        signer != initializer,
    ensures
        s.cancel_error(signer, initializer, seed, mint_a, initializer_ata_a) == Some(
            EscrowError::Unauthorized,
        ),
{
}

/// After an offer is closed by an exchange or a cancellation, any further exchange or
/// cancellation of the same `(initializer, seed)` is refused with `OfferNotFound`.
pub proof fn resolved_offer_stays_closed(
    s: LedgerState,
    initializer: Address,
    seed: u64,
    closing_ata_1: int,
    closing_ata_2: int,
    closing_ata_3: int,
    by_exchange: bool,
    signer: Address,
    mint_a: int,
    mint_b: int,
    ata_1: int,
    ata_2: int,
    ata_3: int,
)
    requires
        s.valid(),
        has_offer(s.offers, initializer, seed),
    ensures
        ({
            let post = if by_exchange {
                s.exchanged(initializer, seed, closing_ata_1, closing_ata_2, closing_ata_3)
            } else {
                s.cancelled(initializer, seed, closing_ata_1)
            };
            &&& post.exchange_error(signer, initializer, seed, mint_a, mint_b, ata_1, ata_2, ata_3)
                == Some(EscrowError::OfferNotFound)
            &&& post.cancel_error(signer, initializer, seed, mint_a, ata_1) == Some(
                EscrowError::OfferNotFound,
            )
        }),
{
    lemma_closed_offer_gone(s, initializer, seed);
}

/// Cancelling an offer right after opening it gives back every account and the set
/// of open offers exactly as they were before.
pub proof fn cancel_restores_initializer(
    s: LedgerState,
    signer: Address,
    seed: u64,
    mint_a: int,
    mint_b: int,
    initializer_ata_a: int,
    initializer_amount: u64,
    taker_amount: u64,
)
    requires
        s.valid(),
        s.initialize_error(signer, seed, mint_a, mint_b, initializer_ata_a, initializer_amount)
            is None,
    ensures
        ({
            let opened = s.initialized(
                signer,
                seed,
                mint_a,
                mint_b,
                initializer_ata_a,
                initializer_amount,
                taker_amount,
            );
            &&& opened.cancel_error(signer, signer, seed, mint_a, initializer_ata_a) is None
            &&& opened.cancelled(signer, seed, initializer_ata_a) == s
        }),
{
    let opened = s.initialized(
        signer,
        seed,
        mint_a,
        mint_b,
        initializer_ata_a,
        initializer_amount,
        taker_amount,
    );
    initialize_records_inputs(
        s,
        signer,
        seed,
        mint_a,
        mint_b,
        initializer_ata_a,
        initializer_amount,
        taker_amount,
    );
    let n = s.offers.len() as int;
    assert(offer_matches(opened.offers[n], signer, seed));
    let j = offer_index(opened.offers, signer, seed);
    if j < n {
        assert(offer_matches(s.offers[j], signer, seed));
    }
    assert(j == n);
    let closed = opened.cancelled(signer, seed, initializer_ata_a);
    assert(closed.accounts =~= s.accounts);
    assert(closed.offers =~= s.offers);
}

/// After `initialize_escrow`, a deposit into an empty vault owned by the escrow
/// record, of asset A, from the initializer's own funded account of asset A, is
/// accepted, and leaves the vault holding exactly the recorded `initializer_amount`.
pub proof fn deposit_funds_vault(
    ctx: Initialize,
    seed: u64,
    bump: u8,
    initializer_amount: u64,
    taker_amount: u64,
)
    requires
        ctx.vault.amount == 0,
        ctx.vault.owner == ctx.escrow_key,
        ctx.vault.mint == ctx.mint_a.key,
        ctx.initializer_ata_a.mint == ctx.mint_a.key,
        ctx.initializer_ata_a.owner == ctx.initializer,
        ctx.initializer_ata_a.amount >= initializer_amount,
    ensures
        ({
            let recorded = Initialize {
                escrow: escrow_of(ctx, seed, bump, initializer_amount, taker_amount),
                ..ctx
            };
            &&& deposit_error(recorded, initializer_amount) is None
            &&& credited(recorded.vault, initializer_amount as int).amount
                == recorded.escrow.initializer_amount
        }),
{
}

/// A deposit larger than the paying account's balance is refused, and so changes
/// nothing; where the vault and the paying account are the right ones, the refusal
/// is `InsufficientFunds`.
pub proof fn deposit_underfunded_refused(ctx: Initialize, initializer_amount: u64)
    requires
        ctx.initializer_ata_a.amount < initializer_amount,
    ensures
        deposit_error(ctx, initializer_amount) is Some,
        ctx.vault.owner == ctx.escrow_key && ctx.vault.mint == ctx.mint_a.key
            && ctx.initializer_ata_a.mint == ctx.mint_a.key && ctx.initializer_ata_a.owner
            == ctx.initializer ==> deposit_error(ctx, initializer_amount) == Some(
            EscrowError::InsufficientFunds,
        ),
{
}

} // verus!
