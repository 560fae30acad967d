use vstd::prelude::*;

use crate::address::Address;
use crate::derive::{escrow_address, escrow_seeds_spec, program_address_of};
use crate::error::{outcome, EscrowError};
use crate::initialize::{Escrow, Initialize, InitializeBumps};
use crate::token::{credited, transfer_checked, Mint, TokenAccount};

verus! {

/// An open offer: its record, the record's derived address, and the vault it owns.
#[derive(Clone, Copy, Debug)]
pub struct Offer {
    pub key: Address,
    pub escrow: Escrow,
    pub vault: TokenAccount,
}

/// The state that the escrow program sees: mints, user token accounts (addressed
/// by index), and the open offers.
pub struct Ledger {
    program_id: Address,
    mints: Vec<Mint>,
    accounts: Vec<TokenAccount>,
    offers: Vec<Offer>,
}

/// The mathematical value of a `Ledger`.
pub struct LedgerState {
    pub program_id: Address,
    pub mints: Seq<Mint>,
    pub accounts: Seq<TokenAccount>,
    pub offers: Seq<Offer>,
}

pub open spec fn offer_matches(o: Offer, initializer: Address, seed: u64) -> bool {
    o.escrow.initializer == initializer && o.escrow.seed == seed
}

/// Whether an open offer exists for `(initializer, seed)`.
pub open spec fn has_offer(offers: Seq<Offer>, initializer: Address, seed: u64) -> bool {
    exists|i: int| 0 <= i < offers.len() && #[trigger] offer_matches(offers[i], initializer, seed)
}

/// The position of the open offer of `(initializer, seed)`.
pub open spec fn offer_index(offers: Seq<Offer>, initializer: Address, seed: u64) -> int {
    choose|i: int| 0 <= i < offers.len() && #[trigger] offer_matches(offers[i], initializer, seed)
}

/// At most one open offer per `(initializer, seed)`.
pub open spec fn offers_unique(offers: Seq<Offer>) -> bool {
    forall|i: int, j: int|
        0 <= i < offers.len() && 0 <= j < offers.len() && #[trigger] offer_matches(
            offers[i],
            offers[j].escrow.initializer,
            offers[j].escrow.seed,
        ) ==> i == j
}

/// Each vault holds exactly the recorded amount of asset A and is owned by its
/// record's derived address.
pub open spec fn vaults_funded(offers: Seq<Offer>) -> bool {
    forall|i: int|
        0 <= i < offers.len() ==> {
            let o = #[trigger] offers[i];
            &&& o.vault.amount == o.escrow.initializer_amount
            &&& o.vault.mint == o.escrow.mint_a
            &&& o.vault.owner == o.key
        }
}

impl LedgerState {
    pub open spec fn valid(self) -> bool {
        offers_unique(self.offers) && vaults_funded(self.offers)
    }

    /// The first reason an initialization is refused, if any.
    pub open spec fn initialize_error(
        self,
        signer: Address,
        seed: u64,
        mint_a: int,
        mint_b: int,
        initializer_ata_a: int,
        initializer_amount: u64,
    ) -> Option<EscrowError> {
        if !(0 <= mint_a < self.mints.len() && 0 <= mint_b < self.mints.len() && 0
            <= initializer_ata_a < self.accounts.len()) {
            Some(EscrowError::InvalidAccount)
        } else if has_offer(self.offers, signer, seed) {
            Some(EscrowError::DuplicateOffer)
        } else if self.accounts[initializer_ata_a].owner != signer {
            Some(EscrowError::Unauthorized)
        } else if self.accounts[initializer_ata_a].mint != self.mints[mint_a].key {
            Some(EscrowError::AssetMismatch)
        } else if self.accounts[initializer_ata_a].amount < initializer_amount {
            Some(EscrowError::InsufficientFunds)
        } else if program_address_of(self.program_id, escrow_seeds_spec(signer, seed)) is None {
            Some(EscrowError::AddressDerivationFailed)
        } else {
            None
        }
    }

    /// The state after a successful initialization.
    pub open spec fn initialized(
        self,
        signer: Address,
        seed: u64,
        mint_a: int,
        mint_b: int,
        initializer_ata_a: int,
        initializer_amount: u64,
        taker_amount: u64,
    ) -> LedgerState {
        let (key, bump) = program_address_of(self.program_id, escrow_seeds_spec(signer, seed))->0;
        let offer = Offer {
            key,
            escrow: Escrow {
                seed,
                bump,
                initializer: signer,
                mint_a: self.mints[mint_a].key,
                mint_b: self.mints[mint_b].key,
                initializer_amount,
                taker_amount,
            },
            vault: TokenAccount {
                mint: self.mints[mint_a].key,
                owner: key,
                amount: initializer_amount,
            },
        };
        LedgerState {
            accounts: self.accounts.update(
                initializer_ata_a,
                credited(self.accounts[initializer_ata_a], -initializer_amount),
            ),
            offers: self.offers.push(offer),
            ..self
        }
    }

    /// The first reason an exchange is refused, if any.
    pub open spec fn exchange_error(
        self,
        taker: Address,
        initializer: Address,
        seed: u64,
        mint_a: int,
        mint_b: int,
        taker_ata_a: int,
        taker_ata_b: int,
        initializer_ata_b: int,
    ) -> Option<EscrowError> {
        if !has_offer(self.offers, initializer, seed) {
            Some(EscrowError::OfferNotFound)
        } else {
            let o = self.offers[offer_index(self.offers, initializer, seed)];
            if !(0 <= mint_a < self.mints.len() && 0 <= mint_b < self.mints.len() && 0
                <= taker_ata_a < self.accounts.len() && 0 <= taker_ata_b < self.accounts.len()
                && 0 <= initializer_ata_b < self.accounts.len() && taker_ata_a != taker_ata_b
                && taker_ata_a != initializer_ata_b && taker_ata_b != initializer_ata_b) {
                Some(EscrowError::InvalidAccount)
            } else if self.mints[mint_a].key != o.escrow.mint_a || self.mints[mint_b].key
                != o.escrow.mint_b || self.accounts[taker_ata_a].mint != o.escrow.mint_a
                || self.accounts[taker_ata_b].mint != o.escrow.mint_b
                || self.accounts[initializer_ata_b].mint != o.escrow.mint_b {
                Some(EscrowError::AssetMismatch)
            } else if self.accounts[taker_ata_a].owner != taker || self.accounts[taker_ata_b].owner
                != taker || self.accounts[initializer_ata_b].owner != initializer {
                Some(EscrowError::Unauthorized)
            } else if self.accounts[taker_ata_b].amount < o.escrow.taker_amount {
                Some(EscrowError::InsufficientFunds)
            } else if self.accounts[initializer_ata_b].amount + o.escrow.taker_amount > u64::MAX
                || self.accounts[taker_ata_a].amount + o.escrow.initializer_amount > u64::MAX {
                Some(EscrowError::AmountOverflow)
            } else {
                None
            }
        }
    }

    /// The state after a successful exchange: the taker pays asset B to the
    /// initializer, receives the vault's asset A, and the offer is closed.
    pub open spec fn exchanged(
        self,
        initializer: Address,
        seed: u64,
        taker_ata_a: int,
        taker_ata_b: int,
        initializer_ata_b: int,
    ) -> LedgerState {
        let i = offer_index(self.offers, initializer, seed);
        let o = self.offers[i];
        LedgerState {
            accounts: self.accounts.update(
                taker_ata_b,
                credited(self.accounts[taker_ata_b], -o.escrow.taker_amount),
            ).update(
                initializer_ata_b,
                credited(self.accounts[initializer_ata_b], o.escrow.taker_amount as int),
            ).update(
                taker_ata_a,
                credited(self.accounts[taker_ata_a], o.vault.amount as int),
            ),
            offers: self.offers.remove(i),
            ..self
        }
    }

    /// The first reason a cancellation is refused, if any.
    pub open spec fn cancel_error(
        self,
        signer: Address,
        initializer: Address,
        seed: u64,
        mint_a: int,
        initializer_ata_a: int,
    ) -> Option<EscrowError> {
        if !has_offer(self.offers, initializer, seed) {
            Some(EscrowError::OfferNotFound)
        } else if signer != initializer {
            Some(EscrowError::Unauthorized)
        } else {
            let o = self.offers[offer_index(self.offers, initializer, seed)];
            if !(0 <= mint_a < self.mints.len() && 0 <= initializer_ata_a < self.accounts.len()) {
                Some(EscrowError::InvalidAccount)
            } else if self.mints[mint_a].key != o.escrow.mint_a
                || self.accounts[initializer_ata_a].mint != o.escrow.mint_a {
                Some(EscrowError::AssetMismatch)
            } else if self.accounts[initializer_ata_a].owner != initializer {
                Some(EscrowError::Unauthorized)
            } else if self.accounts[initializer_ata_a].amount + o.vault.amount > u64::MAX {
                Some(EscrowError::AmountOverflow)
            } else {
                None
            }
        }
    }

    /// The state after a successful cancellation: the vault's asset A goes back to
    /// the initializer and the offer is closed.
    pub open spec fn cancelled(
        self,
        initializer: Address,
        seed: u64,
        initializer_ata_a: int,
    ) -> LedgerState {
        let i = offer_index(self.offers, initializer, seed);
        LedgerState {
            accounts: self.accounts.update(
                initializer_ata_a,
                credited(self.accounts[initializer_ata_a], self.offers[i].vault.amount as int),
            ),
            offers: self.offers.remove(i),
            ..self
        }
    }
}


impl Ledger {
    pub closed spec fn view(&self) -> LedgerState {
        LedgerState {
            program_id: self.program_id,
            mints: self.mints@,
            accounts: self.accounts@,
            offers: self.offers@,
        }
    }

    /// A ledger of the given mints and token accounts, with no open offer.
    pub fn new(program_id: Address, mints: Vec<Mint>, accounts: Vec<TokenAccount>) -> (r: Ledger)
        ensures
            r@ == (LedgerState {
                program_id,
                mints: mints@,
                accounts: accounts@,
                offers: Seq::empty(),
            }),
            r@.valid(),
    {
        Ledger { program_id, mints, accounts, offers: Vec::new() }
    }

    /// The token account at `index`, if there is one.
    pub fn account(&self, index: usize) -> (r: Option<TokenAccount>)
        ensures
            r == (if index < self@.accounts.len() {
                Some(self@.accounts[index as int])
            } else {
                None::<TokenAccount>
            }),
    {
        if index < self.accounts.len() {
            Some(self.accounts[index])
        } else {
            None
        }
    }

    /// The open offer of `(initializer, seed)`, if there is one.
    pub fn offer(&self, initializer: &Address, seed: u64) -> (r: Option<Offer>)
        requires
            self@.valid(),
        ensures
            r == (if has_offer(self@.offers, *initializer, seed) {
                Some(self@.offers[offer_index(self@.offers, *initializer, seed)])
            } else {
                None::<Offer>
            }),
    {
        match self.find_offer(initializer, seed) {
            Some(i) => Some(self.offers[i]),
            None => None,
        }
    }

    /// The number of open offers.
    pub fn offer_count(&self) -> (r: usize)
        ensures
            r == self@.offers.len(),
    {
        self.offers.len()
    }

    /// The position of the open offer of `(initializer, seed)`, if there is one.
    fn find_offer(&self, initializer: &Address, seed: u64) -> (r: Option<usize>)
        requires
            self@.valid(),
        ensures
            r is Some <==> has_offer(self@.offers, *initializer, seed),
            r is Some ==> r->0 == offer_index(self@.offers, *initializer, seed),
    {
        let mut i: usize = 0;
        while i < self.offers.len()
            invariant
                0 <= i <= self.offers@.len(),
                self@.valid(),
                forall|k: int|
                    0 <= k < i ==> !#[trigger] offer_matches(self.offers@[k], *initializer, seed),
            decreases self.offers@.len() - i,
        {
            let o = &self.offers[i];
            if o.escrow.seed == seed && o.escrow.initializer.same_as(initializer) {
                proof {
                    assert(offer_matches(self@.offers[i as int], *initializer, seed));
                    assert(has_offer(self@.offers, *initializer, seed));
                    let j = offer_index(self@.offers, *initializer, seed);
                    assert(offer_matches(self@.offers[j], *initializer, seed));
                    assert(offer_matches(
                        self@.offers[j],
                        self@.offers[i as int].escrow.initializer,
                        self@.offers[i as int].escrow.seed,
                    ));
                }
                return Some(i);
            }
            i = i + 1;
        }
        None
    }

    /// Opens an offer: records `(signer, seed)` at its derived address and moves
    /// `initializer_amount` of asset A from the signer's account into a new vault owned
    /// by that address. Asks `taker_amount` of asset B in return.
    pub fn initialize(
        &mut self,
        signer: Address,
        seed: u64,
        mint_a: usize,
        mint_b: usize,
        initializer_ata_a: usize,
        initializer_amount: u64,
        taker_amount: u64,
    ) -> (r: Result<(), EscrowError>)
        requires
            old(self)@.valid(),
        ensures
            final(self)@.valid(),
            r == outcome(
                old(self)@.initialize_error(
                    signer,
                    seed,
                    mint_a as int,
                    mint_b as int,
                    initializer_ata_a as int,
                    initializer_amount,
                ),
            ),
            r is Ok ==> final(self)@ == old(self)@.initialized(
                signer,
                seed,
                mint_a as int,
                mint_b as int,
                initializer_ata_a as int,
                initializer_amount,
                taker_amount,
            ),
            r is Err ==> final(self)@ == old(self)@,
    {
        if mint_a >= self.mints.len() || mint_b >= self.mints.len() || initializer_ata_a
            >= self.accounts.len() {
            return Err(EscrowError::InvalidAccount);
        }
        if self.find_offer(&signer, seed).is_some() {
            return Err(EscrowError::DuplicateOffer);
        }
        let source = self.accounts[initializer_ata_a];
        let ma = self.mints[mint_a];
        if !source.owner.same_as(&signer) {
            return Err(EscrowError::Unauthorized);
        }
        if !source.mint.same_as(&ma.key) {
            return Err(EscrowError::AssetMismatch);
        }
        if source.amount < initializer_amount {
            return Err(EscrowError::InsufficientFunds);
        }
        let (key, bump) = match escrow_address(&self.program_id, &signer, seed) {
            Some(found) => found,
            None => {
                return Err(EscrowError::AddressDerivationFailed);
            },
        };
        let mut ctx = Initialize {
            initializer: signer,
            mint_a: ma,
            mint_b: self.mints[mint_b],
            initializer_ata_a: source,
            escrow_key: key,
            escrow: Escrow {
                seed: 0,
                bump: 0,
                initializer: key,
                mint_a: ma.key,
                mint_b: ma.key,
                initializer_amount: 0,
                taker_amount: 0,
            },
            vault: TokenAccount { mint: ma.key, owner: key, amount: 0 },
        };
        let bumps = InitializeBumps { escrow: bump };
        assert(old(self)@.initialize_error(
            signer,
            seed,
            mint_a as int,
            mint_b as int,
            initializer_ata_a as int,
            initializer_amount,
        ) is None);
        let done = ctx.initialize_escrow(seed, &bumps, initializer_amount, taker_amount);
        let deposited = ctx.deposit(initializer_amount);
        proof {
            assert(deposited is Ok);
        }
        self.accounts.set(initializer_ata_a, ctx.initializer_ata_a);
        self.offers.push(Offer { key, escrow: ctx.escrow, vault: ctx.vault });
        proof {
            let post = old(self)@.initialized(
                signer,
                seed,
                mint_a as int,
                mint_b as int,
                initializer_ata_a as int,
                initializer_amount,
                taker_amount,
            );
            assert(self@.accounts =~= post.accounts);
            assert(self@.offers =~= post.offers);
            let n = old(self)@.offers.len() as int;
            assert forall|i: int, j: int|
                0 <= i < self@.offers.len() && 0 <= j < self@.offers.len() && #[trigger] offer_matches(
                    self@.offers[i],
                    self@.offers[j].escrow.initializer,
                    self@.offers[j].escrow.seed,
                ) implies i == j by {
                if i == n && j < n {
                    assert(offer_matches(old(self)@.offers[j], signer, seed));
                }
                if j == n && i < n {
                    assert(offer_matches(old(self)@.offers[i], signer, seed));
                }
            }
        }
        done
    }

    /// Completes the offer of `(initializer, seed)`: the taker pays the asked amount
    /// of asset B to the initializer and receives the vault's asset A; the record and
    /// the vault are closed. Either all of it happens or nothing does.
    pub fn exchange(
        &mut self,
        taker: Address,
        initializer: Address,
        seed: u64,
        mint_a: usize,
        mint_b: usize,
        taker_ata_a: usize,
        taker_ata_b: usize,
        initializer_ata_b: usize,
    ) -> (r: Result<(), EscrowError>)
        requires
            old(self)@.valid(),
        ensures
            final(self)@.valid(),
            r == outcome(
                old(self)@.exchange_error(
                    taker,
                    initializer,
                    seed,
                    mint_a as int,
                    mint_b as int,
                    taker_ata_a as int,
                    taker_ata_b as int,
                    initializer_ata_b as int,
                ),
            ),
            r is Ok ==> final(self)@ == old(self)@.exchanged(
                initializer,
                seed,
                taker_ata_a as int,
                taker_ata_b as int,
                initializer_ata_b as int,
            ),
            r is Err ==> final(self)@ == old(self)@,
    {
        let idx = match self.find_offer(&initializer, seed) {
            Some(i) => i,
            None => {
                return Err(EscrowError::OfferNotFound);
            },
        };
        let offer = self.offers[idx];
        if mint_a >= self.mints.len() || mint_b >= self.mints.len() || taker_ata_a
            >= self.accounts.len() || taker_ata_b >= self.accounts.len() || initializer_ata_b
            >= self.accounts.len() || taker_ata_a == taker_ata_b || taker_ata_a
            == initializer_ata_b || taker_ata_b == initializer_ata_b {
            return Err(EscrowError::InvalidAccount);
        }
        let ma = self.mints[mint_a];
        let mb = self.mints[mint_b];
        let mut receive_a = self.accounts[taker_ata_a];
        let mut pay_b = self.accounts[taker_ata_b];
        let mut receive_b = self.accounts[initializer_ata_b];
        if !ma.key.same_as(&offer.escrow.mint_a) || !mb.key.same_as(&offer.escrow.mint_b)
            || !receive_a.mint.same_as(&offer.escrow.mint_a) || !pay_b.mint.same_as(
            &offer.escrow.mint_b,
        ) || !receive_b.mint.same_as(&offer.escrow.mint_b) {
            return Err(EscrowError::AssetMismatch);
        }
        if !receive_a.owner.same_as(&taker) || !pay_b.owner.same_as(&taker)
            || !receive_b.owner.same_as(&initializer) {
            return Err(EscrowError::Unauthorized);
        }
        if pay_b.amount < offer.escrow.taker_amount {
            return Err(EscrowError::InsufficientFunds);
        }
        if receive_b.amount > u64::MAX - offer.escrow.taker_amount || receive_a.amount > u64::MAX
            - offer.escrow.initializer_amount {
            return Err(EscrowError::AmountOverflow);
        }
        let mut vault = offer.vault;
        let paid = transfer_checked(
            &mut pay_b,
            &mut receive_b,
            &mb,
            taker,
            offer.escrow.taker_amount,
            mb.decimals,
        );
        proof {
            assert(paid is Ok);
        }
        let released = transfer_checked(
            &mut vault,
            &mut receive_a,
            &ma,
            offer.key,
            offer.vault.amount,
            ma.decimals,
        );
        proof {
            assert(released is Ok);
        }
        self.accounts.set(taker_ata_b, pay_b);
        self.accounts.set(initializer_ata_b, receive_b);
        self.accounts.set(taker_ata_a, receive_a);
        self.offers.remove(idx);
        proof {
            let post = old(self)@.exchanged(
                initializer,
                seed,
                taker_ata_a as int,
                taker_ata_b as int,
                initializer_ata_b as int,
            );
            assert(self@.accounts =~= post.accounts);
            assert(self@.offers =~= post.offers);
            lemma_remove_keeps_valid(old(self)@.offers, idx as int);
        }
        Ok(())
    }

    /// Withdraws the offer of `(initializer, seed)`: the vault's asset A goes back to
    /// the initializer's account and the record and the vault are closed. Only the
    /// initializer may do this.
    pub fn cancel(
        &mut self,
        signer: Address,
        initializer: Address,
        seed: u64,
        mint_a: usize,
        initializer_ata_a: usize,
    ) -> (r: Result<(), EscrowError>)
        requires
            old(self)@.valid(),
        ensures
            final(self)@.valid(),
            r == outcome(
                old(self)@.cancel_error(
                    signer,
                    initializer,
                    seed,
                    mint_a as int,
                    initializer_ata_a as int,
                ),
            ),
            r is Ok ==> final(self)@ == old(self)@.cancelled(
                initializer,
                seed,
                initializer_ata_a as int,
            ),
            r is Err ==> final(self)@ == old(self)@,
    {
        let idx = match self.find_offer(&initializer, seed) {
            Some(i) => i,
            None => {
                return Err(EscrowError::OfferNotFound);
            },
        };
        if !signer.same_as(&initializer) {
            return Err(EscrowError::Unauthorized);
        }
        let offer = self.offers[idx];
        if mint_a >= self.mints.len() || initializer_ata_a >= self.accounts.len() {
            return Err(EscrowError::InvalidAccount);
        }
        let ma = self.mints[mint_a];
        let mut refund = self.accounts[initializer_ata_a];
        if !ma.key.same_as(&offer.escrow.mint_a) || !refund.mint.same_as(&offer.escrow.mint_a) {
            return Err(EscrowError::AssetMismatch);
        }
        if !refund.owner.same_as(&initializer) {
            return Err(EscrowError::Unauthorized);
        }
        if refund.amount > u64::MAX - offer.vault.amount {
            return Err(EscrowError::AmountOverflow);
        }
        let mut vault = offer.vault;
        let returned = transfer_checked(
            &mut vault,
            &mut refund,
            &ma,
            offer.key,
            offer.vault.amount,
            ma.decimals,
        );
        proof {
            assert(returned is Ok);
        }
        self.accounts.set(initializer_ata_a, refund);
        self.offers.remove(idx);
        proof {
            let post = old(self)@.cancelled(initializer, seed, initializer_ata_a as int);
            assert(self@.accounts =~= post.accounts);
            assert(self@.offers =~= post.offers);
            lemma_remove_keeps_valid(old(self)@.offers, idx as int);
        }
        Ok(())
    }
}

/// Closing an offer keeps the others unique and funded.
proof fn lemma_remove_keeps_valid(offers: Seq<Offer>, k: int)
    requires
        offers_unique(offers),
        vaults_funded(offers),
        0 <= k < offers.len(),
    ensures
        offers_unique(offers.remove(k)),
        vaults_funded(offers.remove(k)),
{
    let rest = offers.remove(k);
    assert forall|i: int, j: int|
        0 <= i < rest.len() && 0 <= j < rest.len() && #[trigger] offer_matches(
            rest[i],
            rest[j].escrow.initializer,
            rest[j].escrow.seed,
        ) implies i == j by {
        let oi = if i < k { i } else { i + 1 };
        let oj = if j < k { j } else { j + 1 };
        assert(offer_matches(offers[oi], offers[oj].escrow.initializer, offers[oj].escrow.seed));
    }
    assert forall|i: int| 0 <= i < rest.len() implies {
        let o = #[trigger] rest[i];
        &&& o.vault.amount == o.escrow.initializer_amount
        &&& o.vault.mint == o.escrow.mint_a
        &&& o.vault.owner == o.key
    } by {
        let oi = if i < k { i } else { i + 1 };
        assert(rest[i] == offers[oi]);
    }
}

} // verus!
