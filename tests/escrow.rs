use anchor_escrow::address::Address;
use anchor_escrow::derive::{escrow_address, escrow_seeds};
use anchor_escrow::error::EscrowError;
use anchor_escrow::initialize::{Escrow, Initialize, InitializeBumps, TransferChecked};
use anchor_escrow::ledger::Ledger;
use anchor_escrow::token::{transfer_checked, Mint, TokenAccount};

fn addr(b: u8) -> Address {
    Address::new([b; 32])
}

const PROGRAM: u8 = 9;
const ALICE: u8 = 1;
const BOB: u8 = 2;
const MALLORY: u8 = 3;
const MINT_A: u8 = 10;
const MINT_B: u8 = 11;
const MINT_C: u8 = 12;

// Account indices of the ledger built by `ledger()`.
const ALICE_A: usize = 0;
const ALICE_B: usize = 1;
const BOB_A: usize = 2;
const BOB_B: usize = 3;
const MALLORY_A: usize = 4;
const BOB_C: usize = 5;

fn acct(mint: u8, owner: u8, amount: u64) -> TokenAccount {
    TokenAccount { mint: addr(mint), owner: addr(owner), amount }
}

fn ledger() -> Ledger {
    Ledger::new(
        addr(PROGRAM),
        vec![
            Mint { key: addr(MINT_A), decimals: 6 },
            Mint { key: addr(MINT_B), decimals: 9 },
            Mint { key: addr(MINT_C), decimals: 9 },
        ],
        vec![
            acct(MINT_A, ALICE, 1_000),
            acct(MINT_B, ALICE, 0),
            acct(MINT_A, BOB, 0),
            acct(MINT_B, BOB, 500),
            acct(MINT_A, MALLORY, 0),
            acct(MINT_C, BOB, 500),
        ],
    )
}

fn amount(l: &Ledger, i: usize) -> u64 {
    l.account(i).unwrap().amount
}

#[test]
fn initialize_locks_deposit_and_records_inputs() {
    let mut l = ledger();
    assert_eq!(l.initialize(addr(ALICE), 1, 0, 1, ALICE_A, 100, 50), Ok(()));
    assert_eq!(amount(&l, ALICE_A), 900);
    let offer = l.offer(&addr(ALICE), 1).unwrap();
    assert_eq!(offer.vault.amount, 100);
    assert_eq!(offer.vault.mint, addr(MINT_A));
    assert_eq!(offer.vault.owner, offer.key);
    assert_eq!(offer.escrow.seed, 1);
    assert_eq!(offer.escrow.initializer, addr(ALICE));
    assert_eq!(offer.escrow.mint_a, addr(MINT_A));
    assert_eq!(offer.escrow.mint_b, addr(MINT_B));
    assert_eq!(offer.escrow.initializer_amount, 100);
    assert_eq!(offer.escrow.taker_amount, 50);
    assert_eq!(l.offer_count(), 1);
}

#[test]
fn vault_authority_is_a_derived_address() {
    let mut l = ledger();
    assert_eq!(l.initialize(addr(ALICE), 1, 0, 1, ALICE_A, 100, 50), Ok(()));
    assert_eq!(l.initialize(addr(ALICE), 2, 0, 1, ALICE_A, 100, 50), Ok(()));
    let first = l.offer(&addr(ALICE), 1).unwrap();
    let second = l.offer(&addr(ALICE), 2).unwrap();
    assert_ne!(first.key, addr(PROGRAM));
    assert_ne!(first.key, addr(ALICE));
    assert_ne!(first.key, second.key);
    // The same inputs derive the same address again.
    let mut again = ledger();
    assert_eq!(again.initialize(addr(ALICE), 1, 0, 1, ALICE_A, 100, 50), Ok(()));
    let same = again.offer(&addr(ALICE), 1).unwrap();
    assert_eq!(same.key, first.key);
    assert_eq!(same.escrow.bump, first.escrow.bump);
}

#[test]
fn initialize_underfunded_changes_nothing() {
    let mut l = ledger();
    assert_eq!(l.initialize(addr(ALICE), 1, 0, 1, ALICE_A, 1_001, 50), Err(EscrowError::InsufficientFunds));
    assert_eq!(amount(&l, ALICE_A), 1_000);
    assert_eq!(l.offer_count(), 0);
    assert!(l.offer(&addr(ALICE), 1).is_none());
}

#[test]
fn initialize_whole_balance_succeeds() {
    let mut l = ledger();
    assert_eq!(l.initialize(addr(ALICE), 1, 0, 1, ALICE_A, 1_000, 50), Ok(()));
    assert_eq!(amount(&l, ALICE_A), 0);
}

#[test]
fn initialize_duplicate_seed_refused() {
    let mut l = ledger();
    assert_eq!(l.initialize(addr(ALICE), 1, 0, 1, ALICE_A, 100, 50), Ok(()));
    assert_eq!(l.initialize(addr(ALICE), 1, 0, 1, ALICE_A, 10, 5), Err(EscrowError::DuplicateOffer));
    assert_eq!(amount(&l, ALICE_A), 900);
    assert_eq!(l.offer_count(), 1);
}

#[test]
fn initialize_from_foreign_account_refused() {
    let mut l = ledger();
    assert_eq!(l.initialize(addr(MALLORY), 1, 0, 1, ALICE_A, 100, 50), Err(EscrowError::Unauthorized));
    assert_eq!(amount(&l, ALICE_A), 1_000);
}

#[test]
fn initialize_wrong_mint_refused() {
    let mut l = ledger();
    assert_eq!(l.initialize(addr(ALICE), 1, 1, 0, ALICE_A, 100, 50), Err(EscrowError::AssetMismatch));
}

#[test]
fn initialize_bad_index_refused() {
    let mut l = ledger();
    assert_eq!(l.initialize(addr(ALICE), 1, 0, 7, ALICE_A, 100, 50), Err(EscrowError::InvalidAccount));
    assert_eq!(l.initialize(addr(ALICE), 1, 0, 1, 99, 100, 50), Err(EscrowError::InvalidAccount));
}

#[test]
fn exchange_scenario_seed_one() {
    let mut l = ledger();
    assert_eq!(l.initialize(addr(ALICE), 1, 0, 1, ALICE_A, 100, 50), Ok(()));
    assert_eq!(l.exchange(addr(BOB), addr(ALICE), 1, 0, 1, BOB_A, BOB_B, ALICE_B), Ok(()));
    assert_eq!(amount(&l, BOB_A), 100);
    assert_eq!(amount(&l, BOB_B), 450);
    assert_eq!(amount(&l, ALICE_B), 50);
    assert_eq!(amount(&l, ALICE_A), 900);
    assert!(l.offer(&addr(ALICE), 1).is_none());
    assert_eq!(l.offer_count(), 0);
    assert_eq!(
        l.exchange(addr(BOB), addr(ALICE), 1, 0, 1, BOB_A, BOB_B, ALICE_B),
        Err(EscrowError::OfferNotFound)
    );
    assert_eq!(amount(&l, BOB_A), 100);
    assert_eq!(amount(&l, BOB_B), 450);
    assert_eq!(amount(&l, ALICE_B), 50);
}

#[test]
fn cancel_scenario_seed_two() {
    let mut l = ledger();
    let before = amount(&l, ALICE_A);
    assert_eq!(l.initialize(addr(ALICE), 2, 0, 1, ALICE_A, 100, 50), Ok(()));
    assert_eq!(amount(&l, ALICE_A), before - 100);
    assert_eq!(l.cancel(addr(ALICE), addr(ALICE), 2, 0, ALICE_A), Ok(()));
    assert_eq!(amount(&l, ALICE_A), before);
    assert!(l.offer(&addr(ALICE), 2).is_none());
    assert_eq!(l.offer_count(), 0);
}

#[test]
fn exchange_with_wrong_asset_changes_nothing() {
    let mut l = ledger();
    assert_eq!(l.initialize(addr(ALICE), 1, 0, 1, ALICE_A, 100, 50), Ok(()));
    // Bob pays with asset C, of the same decimals as asset B.
    assert_eq!(
        l.exchange(addr(BOB), addr(ALICE), 1, 0, 2, BOB_A, BOB_C, ALICE_B),
        Err(EscrowError::AssetMismatch)
    );
    assert_eq!(
        l.exchange(addr(BOB), addr(ALICE), 1, 0, 1, BOB_A, BOB_C, ALICE_B),
        Err(EscrowError::AssetMismatch)
    );
    assert_eq!(amount(&l, BOB_A), 0);
    assert_eq!(amount(&l, BOB_C), 500);
    assert_eq!(amount(&l, ALICE_B), 0);
    assert_eq!(l.offer(&addr(ALICE), 1).unwrap().vault.amount, 100);
}

#[test]
fn exchange_underfunded_taker_refused() {
    let mut l = ledger();
    assert_eq!(l.initialize(addr(ALICE), 1, 0, 1, ALICE_A, 100, 501), Ok(()));
    assert_eq!(
        l.exchange(addr(BOB), addr(ALICE), 1, 0, 1, BOB_A, BOB_B, ALICE_B),
        Err(EscrowError::InsufficientFunds)
    );
    assert_eq!(amount(&l, BOB_B), 500);
    assert_eq!(l.offer(&addr(ALICE), 1).unwrap().vault.amount, 100);
}

#[test]
fn exchange_with_strangers_account_refused() {
    let mut l = ledger();
    assert_eq!(l.initialize(addr(ALICE), 1, 0, 1, ALICE_A, 100, 50), Ok(()));
    assert_eq!(
        l.exchange(addr(MALLORY), addr(ALICE), 1, 0, 1, MALLORY_A, BOB_B, ALICE_B),
        Err(EscrowError::Unauthorized)
    );
    assert_eq!(amount(&l, BOB_B), 500);
}

#[test]
fn exchange_with_repeated_account_refused() {
    let mut l = ledger();
    assert_eq!(l.initialize(addr(ALICE), 1, 0, 1, ALICE_A, 100, 50), Ok(()));
    assert_eq!(
        l.exchange(addr(BOB), addr(ALICE), 1, 0, 1, BOB_A, BOB_B, BOB_B),
        Err(EscrowError::InvalidAccount)
    );
}

#[test]
fn exchange_overflowing_credit_refused() {
    let mut l = Ledger::new(
        addr(PROGRAM),
        vec![Mint { key: addr(MINT_A), decimals: 0 }, Mint { key: addr(MINT_B), decimals: 0 }],
        vec![
            acct(MINT_A, ALICE, 10),
            acct(MINT_B, ALICE, u64::MAX),
            acct(MINT_A, BOB, 0),
            acct(MINT_B, BOB, 10),
        ],
    );
    assert_eq!(l.initialize(addr(ALICE), 1, 0, 1, ALICE_A, 10, 1), Ok(()));
    assert_eq!(
        l.exchange(addr(BOB), addr(ALICE), 1, 0, 1, BOB_A, BOB_B, ALICE_B),
        Err(EscrowError::AmountOverflow)
    );
    assert_eq!(amount(&l, BOB_B), 10);
}

#[test]
fn cancel_by_stranger_leaves_vault() {
    let mut l = ledger();
    assert_eq!(l.initialize(addr(ALICE), 1, 0, 1, ALICE_A, 100, 50), Ok(()));
    assert_eq!(l.cancel(addr(MALLORY), addr(ALICE), 1, 0, MALLORY_A), Err(EscrowError::Unauthorized));
    assert_eq!(l.cancel(addr(BOB), addr(ALICE), 1, 0, ALICE_A), Err(EscrowError::Unauthorized));
    assert_eq!(l.offer(&addr(ALICE), 1).unwrap().vault.amount, 100);
    assert_eq!(amount(&l, MALLORY_A), 0);
}

#[test]
fn cancel_to_foreign_account_refused() {
    let mut l = ledger();
    assert_eq!(l.initialize(addr(ALICE), 1, 0, 1, ALICE_A, 100, 50), Ok(()));
    assert_eq!(l.cancel(addr(ALICE), addr(ALICE), 1, 0, MALLORY_A), Err(EscrowError::Unauthorized));
    assert_eq!(l.cancel(addr(ALICE), addr(ALICE), 1, 1, ALICE_A), Err(EscrowError::AssetMismatch));
    assert_eq!(l.offer(&addr(ALICE), 1).unwrap().vault.amount, 100);
}

#[test]
fn resolved_offer_cannot_be_resolved_again() {
    let mut l = ledger();
    assert_eq!(l.initialize(addr(ALICE), 1, 0, 1, ALICE_A, 100, 50), Ok(()));
    assert_eq!(l.cancel(addr(ALICE), addr(ALICE), 1, 0, ALICE_A), Ok(()));
    assert_eq!(l.cancel(addr(ALICE), addr(ALICE), 1, 0, ALICE_A), Err(EscrowError::OfferNotFound));
    assert_eq!(
        l.exchange(addr(BOB), addr(ALICE), 1, 0, 1, BOB_A, BOB_B, ALICE_B),
        Err(EscrowError::OfferNotFound)
    );
    assert_eq!(amount(&l, ALICE_A), 1_000);
    assert_eq!(amount(&l, BOB_B), 500);
}

#[test]
fn seed_can_be_reused_after_resolution() {
    let mut l = ledger();
    assert_eq!(l.initialize(addr(ALICE), 1, 0, 1, ALICE_A, 100, 50), Ok(()));
    assert_eq!(l.cancel(addr(ALICE), addr(ALICE), 1, 0, ALICE_A), Ok(()));
    assert_eq!(l.initialize(addr(ALICE), 1, 0, 1, ALICE_A, 30, 5), Ok(()));
    assert_eq!(l.offer(&addr(ALICE), 1).unwrap().escrow.initializer_amount, 30);
}

#[test]
fn offers_of_other_initializers_are_independent() {
    let mut l = ledger();
    assert_eq!(l.initialize(addr(ALICE), 1, 0, 1, ALICE_A, 100, 50), Ok(()));
    assert_eq!(l.initialize(addr(BOB), 1, 1, 0, BOB_B, 20, 10), Ok(()));
    assert_eq!(l.offer_count(), 2);
    assert_eq!(l.cancel(addr(BOB), addr(BOB), 1, 1, BOB_B), Ok(()));
    assert_eq!(l.offer(&addr(ALICE), 1).unwrap().vault.amount, 100);
    assert_eq!(amount(&l, BOB_B), 500);
}

#[test]
fn transfer_checked_moves_exact_amount() {
    let mint = Mint { key: addr(MINT_A), decimals: 6 };
    let mut from = acct(MINT_A, ALICE, 70);
    let mut to = acct(MINT_A, BOB, 5);
    assert_eq!(transfer_checked(&mut from, &mut to, &mint, addr(ALICE), 30, 6), Ok(()));
    assert_eq!(from.amount, 40);
    assert_eq!(to.amount, 35);
}

#[test]
fn transfer_checked_refusals() {
    let mint = Mint { key: addr(MINT_A), decimals: 6 };
    let mut from = acct(MINT_A, ALICE, 70);
    let mut to = acct(MINT_A, BOB, 5);
    assert_eq!(transfer_checked(&mut from, &mut to, &mint, addr(ALICE), 30, 9), Err(EscrowError::DecimalMismatch));
    assert_eq!(transfer_checked(&mut from, &mut to, &mint, addr(BOB), 30, 6), Err(EscrowError::Unauthorized));
    assert_eq!(transfer_checked(&mut from, &mut to, &mint, addr(ALICE), 71, 6), Err(EscrowError::InsufficientFunds));
    let mut other = acct(MINT_B, BOB, 5);
    assert_eq!(transfer_checked(&mut from, &mut other, &mint, addr(ALICE), 1, 6), Err(EscrowError::AssetMismatch));
    let mut full = acct(MINT_A, BOB, u64::MAX);
    assert_eq!(transfer_checked(&mut from, &mut full, &mint, addr(ALICE), 1, 6), Err(EscrowError::AmountOverflow));
    assert_eq!(from.amount, 70);
    assert_eq!(to.amount, 5);
}

fn context() -> Initialize {
    Initialize {
        initializer: addr(ALICE),
        mint_a: Mint { key: addr(MINT_A), decimals: 6 },
        mint_b: Mint { key: addr(MINT_B), decimals: 9 },
        initializer_ata_a: acct(MINT_A, ALICE, 250),
        escrow_key: addr(42),
        escrow: Escrow {
            seed: 0,
            bump: 0,
            initializer: addr(0),
            mint_a: addr(0),
            mint_b: addr(0),
            initializer_amount: 0,
            taker_amount: 0,
        },
        vault: acct(MINT_A, 42, 0),
    }
}

#[test]
fn initialize_escrow_fills_record() {
    let mut ctx = context();
    assert_eq!(ctx.initialize_escrow(7, &InitializeBumps { escrow: 254 }, 100, 50), Ok(()));
    assert_eq!(ctx.escrow.seed, 7);
    assert_eq!(ctx.escrow.bump, 254);
    assert_eq!(ctx.escrow.initializer, addr(ALICE));
    assert_eq!(ctx.escrow.mint_a, addr(MINT_A));
    assert_eq!(ctx.escrow.mint_b, addr(MINT_B));
    assert_eq!(ctx.escrow.initializer_amount, 100);
    assert_eq!(ctx.escrow.taker_amount, 50);
    assert_eq!(ctx.initializer_ata_a.amount, 250);
}

#[test]
fn deposit_moves_into_vault() {
    let mut ctx = context();
    assert_eq!(ctx.deposit(100), Ok(()));
    assert_eq!(ctx.initializer_ata_a.amount, 150);
    assert_eq!(ctx.vault.amount, 100);
    assert_eq!(ctx.deposit(151), Err(EscrowError::InsufficientFunds));
    assert_eq!(ctx.initializer_ata_a.amount, 150);
    assert_eq!(ctx.vault.amount, 100);
}

#[test]
fn deposit_context_names_the_accounts() {
    let ctx = context();
    let t: TransferChecked = ctx.into_deposit_context();
    assert_eq!(t.from.amount, 250);
    assert_eq!(t.from.owner, addr(ALICE));
    assert_eq!(t.to.owner, addr(42));
    assert_eq!(t.mint.key, addr(MINT_A));
    assert_eq!(t.authority, addr(ALICE));
}

#[test]
fn deposit_into_foreign_vault_refused() {
    let mut ctx = context();
    ctx.vault = acct(MINT_A, MALLORY, 0);
    assert_eq!(ctx.deposit(100), Err(EscrowError::Unauthorized));
    assert_eq!(ctx.initializer_ata_a.amount, 250);
    assert_eq!(ctx.vault.amount, 0);
}

#[test]
fn escrow_seeds_are_tag_key_and_seed_bytes() {
    let mut key = [0u8; 32];
    for (i, b) in key.iter_mut().enumerate() {
        *b = i as u8;
    }
    let seeds = escrow_seeds(&Address::new(key), 0x0102_0304_0506_0708);
    assert_eq!(seeds.len(), 3);
    assert_eq!(seeds[0], b"state".to_vec());
    assert_eq!(seeds[1], key.to_vec());
    assert_eq!(seeds[2], vec![8, 7, 6, 5, 4, 3, 2, 1]);
}

#[test]
fn escrow_address_matches_the_recorded_offer() {
    let mut l = ledger();
    assert_eq!(l.initialize(addr(ALICE), 5, 0, 1, ALICE_A, 10, 1), Ok(()));
    let offer = l.offer(&addr(ALICE), 5).unwrap();
    let (key, bump) = escrow_address(&addr(PROGRAM), &addr(ALICE), 5).unwrap();
    assert_eq!(offer.key, key);
    assert_eq!(offer.escrow.bump, bump);
    let (other, _) = escrow_address(&addr(PROGRAM), &addr(BOB), 5).unwrap();
    assert_ne!(other, key);
}
