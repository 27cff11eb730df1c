use wu_pay_solana::deriver::{derive_identity, state_seed_bytes, wallet_seed_bytes};
use wu_pay_solana::escrow::{EscrowLedger, Status};
use wu_pay_solana::ErrorCode;

const PROGRAM: [u8; 32] = [7u8; 32];
const SENDER: [u8; 32] = [2u8; 32];
const RECEIVER: [u8; 32] = [3u8; 32];

fn tags(sender: &[u8; 32], receiver: &[u8; 32], index: u64) -> (u8, u8) {
    let state_prefix = state_seed_bytes();
    let wallet_prefix = wallet_seed_bytes();
    let (_, state_bump) =
        derive_identity(state_prefix.as_slice(), sender, receiver, index, &PROGRAM).unwrap();
    let (_, wallet_bump) =
        derive_identity(wallet_prefix.as_slice(), sender, receiver, index, &PROGRAM).unwrap();
    (state_bump, wallet_bump)
}

fn funded_ledger() -> EscrowLedger {
    let mut world = EscrowLedger::new(&PROGRAM);
    world.open_account(&SENDER, 5000).unwrap();
    world.open_account(&RECEIVER, 100).unwrap();
    world
}

#[test]
fn deposit_then_release_moves_amount() {
    let mut world = funded_ledger();
    assert_eq!(world.deposite_grant(&SENDER, &RECEIVER, 0, 1000), Ok(()));
    assert_eq!(world.balance_of(&SENDER), Some(4000));
    assert_eq!(world.custody_balance(&SENDER, &RECEIVER, 0), Some(1000));
    let (sb, wb) = tags(&SENDER, &RECEIVER, 0);
    assert_eq!(world.complete_grant(&SENDER, &RECEIVER, 0, sb, wb, 1000), Ok(()));
    assert_eq!(world.balance_of(&SENDER), Some(4000));
    assert_eq!(world.balance_of(&RECEIVER), Some(1100));
    assert_eq!(world.custody_balance(&SENDER, &RECEIVER, 0), Some(0));
}

#[test]
fn release_with_wrong_amount_fails() {
    let mut world = funded_ledger();
    world.deposite_grant(&SENDER, &RECEIVER, 0, 1000).unwrap();
    let (sb, wb) = tags(&SENDER, &RECEIVER, 0);
    assert_eq!(
        world.complete_grant(&SENDER, &RECEIVER, 0, sb, wb, 999),
        Err(ErrorCode::InvalidAmount)
    );
    assert_eq!(world.balance_of(&RECEIVER), Some(100));
    assert_eq!(world.custody_balance(&SENDER, &RECEIVER, 0), Some(1000));
}

#[test]
fn refund_with_wrong_amount_fails() {
    let mut world = funded_ledger();
    world.deposite_grant(&SENDER, &RECEIVER, 0, 1000).unwrap();
    let (sb, wb) = tags(&SENDER, &RECEIVER, 0);
    assert_eq!(
        world.withdraw_grant(&SENDER, &RECEIVER, 0, sb, wb, 1001),
        Err(ErrorCode::InvalidAmount)
    );
    assert_eq!(world.balance_of(&SENDER), Some(4000));
    assert_eq!(world.custody_balance(&SENDER, &RECEIVER, 0), Some(1000));
}

#[test]
fn release_with_forged_state_tag_fails() {
    let mut world = funded_ledger();
    world.deposite_grant(&SENDER, &RECEIVER, 0, 1000).unwrap();
    let (sb, wb) = tags(&SENDER, &RECEIVER, 0);
    assert_eq!(
        world.complete_grant(&SENDER, &RECEIVER, 0, sb.wrapping_add(1), wb, 1000),
        Err(ErrorCode::InvalidStateAddress)
    );
    assert_eq!(world.balance_of(&RECEIVER), Some(100));
    assert_eq!(world.custody_balance(&SENDER, &RECEIVER, 0), Some(1000));
}

#[test]
fn release_with_forged_wallet_tag_fails() {
    let mut world = funded_ledger();
    world.deposite_grant(&SENDER, &RECEIVER, 0, 1000).unwrap();
    let (sb, wb) = tags(&SENDER, &RECEIVER, 0);
    assert_eq!(
        world.complete_grant(&SENDER, &RECEIVER, 0, sb, wb.wrapping_add(1), 1000),
        Err(ErrorCode::InvalidWalletBump)
    );
    assert_eq!(world.balance_of(&RECEIVER), Some(100));
    assert_eq!(world.custody_balance(&SENDER, &RECEIVER, 0), Some(1000));
}

#[test]
fn refund_with_forged_tags_fails() {
    let mut world = funded_ledger();
    world.deposite_grant(&SENDER, &RECEIVER, 0, 1000).unwrap();
    let (sb, wb) = tags(&SENDER, &RECEIVER, 0);
    assert_eq!(
        world.withdraw_grant(&SENDER, &RECEIVER, 0, sb.wrapping_sub(1), wb, 1000),
        Err(ErrorCode::InvalidStateAddress)
    );
    assert_eq!(
        world.withdraw_grant(&SENDER, &RECEIVER, 0, sb, wb.wrapping_sub(1), 1000),
        Err(ErrorCode::InvalidWalletBump)
    );
    assert_eq!(world.balance_of(&SENDER), Some(4000));
    assert_eq!(world.custody_balance(&SENDER, &RECEIVER, 0), Some(1000));
}

#[test]
fn release_twice_fails() {
    let mut world = funded_ledger();
    world.deposite_grant(&SENDER, &RECEIVER, 0, 1000).unwrap();
    let (sb, wb) = tags(&SENDER, &RECEIVER, 0);
    assert_eq!(world.complete_grant(&SENDER, &RECEIVER, 0, sb, wb, 1000), Ok(()));
    assert_eq!(
        world.complete_grant(&SENDER, &RECEIVER, 0, sb, wb, 1000),
        Err(ErrorCode::AlreadySettled)
    );
    assert_eq!(world.balance_of(&RECEIVER), Some(1100));
    assert_eq!(world.custody_balance(&SENDER, &RECEIVER, 0), Some(0));
}

#[test]
fn close_before_settle_fails() {
    let mut world = funded_ledger();
    world.deposite_grant(&SENDER, &RECEIVER, 0, 1000).unwrap();
    let (sb, wb) = tags(&SENDER, &RECEIVER, 0);
    assert_eq!(
        world.close_escrow(&SENDER, &RECEIVER, 0, sb, wb),
        Err(ErrorCode::CustodyNotEmpty)
    );
    assert!(world.escrow_record(&SENDER, &RECEIVER, 0).is_some());
    assert_eq!(world.custody_balance(&SENDER, &RECEIVER, 0), Some(1000));
}

#[test]
fn deposit_twice_fails() {
    let mut world = funded_ledger();
    world.deposite_grant(&SENDER, &RECEIVER, 0, 1000).unwrap();
    assert_eq!(
        world.deposite_grant(&SENDER, &RECEIVER, 0, 700),
        Err(ErrorCode::AccountAlreadyExists)
    );
    assert_eq!(world.balance_of(&SENDER), Some(4000));
    assert_eq!(world.custody_balance(&SENDER, &RECEIVER, 0), Some(1000));
}

#[test]
fn end_to_end_release_and_close() {
    let mut world = funded_ledger();
    assert_eq!(world.deposite_grant(&SENDER, &RECEIVER, 0, 1000), Ok(()));
    let (sb, wb) = tags(&SENDER, &RECEIVER, 0);
    assert_eq!(world.complete_grant(&SENDER, &RECEIVER, 0, sb, wb, 1000), Ok(()));
    assert_eq!(world.balance_of(&RECEIVER), Some(1100));
    assert_eq!(world.custody_balance(&SENDER, &RECEIVER, 0), Some(0));
    assert_eq!(world.close_escrow(&SENDER, &RECEIVER, 0, sb, wb), Ok(()));
    assert!(world.escrow_record(&SENDER, &RECEIVER, 0).is_none());
    assert!(world.custody_balance(&SENDER, &RECEIVER, 0).is_none());
}

#[test]
fn refund_returns_amount_to_sender() {
    let mut world = funded_ledger();
    world.deposite_grant(&SENDER, &RECEIVER, 0, 1000).unwrap();
    let (sb, wb) = tags(&SENDER, &RECEIVER, 0);
    assert_eq!(world.withdraw_grant(&SENDER, &RECEIVER, 0, sb, wb, 1000), Ok(()));
    assert_eq!(world.balance_of(&SENDER), Some(5000));
    assert_eq!(world.balance_of(&RECEIVER), Some(100));
    let record = world.escrow_record(&SENDER, &RECEIVER, 0).unwrap();
    assert_eq!(record.status, Status::Refunded);
    assert_eq!(world.close_escrow(&SENDER, &RECEIVER, 0, sb, wb), Ok(()));
    assert!(world.escrow_record(&SENDER, &RECEIVER, 0).is_none());
}

#[test]
fn record_stores_parties_amount_and_tag() {
    let mut world = funded_ledger();
    world.deposite_grant(&SENDER, &RECEIVER, 5, 250).unwrap();
    let (_, wb) = tags(&SENDER, &RECEIVER, 5);
    let record = world.escrow_record(&SENDER, &RECEIVER, 5).unwrap();
    assert_eq!(record.sender, SENDER);
    assert_eq!(record.receiver, RECEIVER);
    assert_eq!(record.amount, 250);
    assert_eq!(record.wallet_bump, wb);
    assert_eq!(record.status, Status::Created);
}

#[test]
fn deposit_without_sender_account_fails() {
    let mut world = EscrowLedger::new(&PROGRAM);
    assert_eq!(
        world.deposite_grant(&SENDER, &RECEIVER, 0, 1000),
        Err(ErrorCode::AccountNotFound)
    );
    assert!(world.escrow_record(&SENDER, &RECEIVER, 0).is_none());
}

#[test]
fn deposit_beyond_balance_fails() {
    let mut world = funded_ledger();
    assert_eq!(
        world.deposite_grant(&SENDER, &RECEIVER, 0, 5001),
        Err(ErrorCode::InsufficientBalance)
    );
    assert_eq!(world.balance_of(&SENDER), Some(5000));
    assert!(world.escrow_record(&SENDER, &RECEIVER, 0).is_none());
}

#[test]
fn release_of_unknown_escrow_fails() {
    let mut world = funded_ledger();
    let (sb, wb) = tags(&SENDER, &RECEIVER, 9);
    assert_eq!(
        world.complete_grant(&SENDER, &RECEIVER, 9, sb, wb, 1000),
        Err(ErrorCode::AccountNotFound)
    );
}

#[test]
fn release_overflowing_receiver_fails() {
    let mut world = EscrowLedger::new(&PROGRAM);
    world.open_account(&SENDER, 5000).unwrap();
    world.open_account(&RECEIVER, u64::MAX).unwrap();
    world.deposite_grant(&SENDER, &RECEIVER, 0, 1000).unwrap();
    let (sb, wb) = tags(&SENDER, &RECEIVER, 0);
    assert_eq!(
        world.complete_grant(&SENDER, &RECEIVER, 0, sb, wb, 1000),
        Err(ErrorCode::BalanceOverflow)
    );
    assert_eq!(world.custody_balance(&SENDER, &RECEIVER, 0), Some(1000));
}

#[test]
fn opening_an_occupied_address_fails() {
    let mut world = funded_ledger();
    assert_eq!(
        world.open_account(&SENDER, 1),
        Err(ErrorCode::AccountAlreadyExists)
    );
    assert_eq!(world.balance_of(&SENDER), Some(5000));
}

#[test]
fn independent_indexes_are_independent_escrows() {
    let mut world = funded_ledger();
    world.deposite_grant(&SENDER, &RECEIVER, 0, 1000).unwrap();
    world.deposite_grant(&SENDER, &RECEIVER, 1, 2000).unwrap();
    assert_eq!(world.balance_of(&SENDER), Some(2000));
    let (sb0, wb0) = tags(&SENDER, &RECEIVER, 0);
    assert_eq!(world.complete_grant(&SENDER, &RECEIVER, 0, sb0, wb0, 1000), Ok(()));
    assert_eq!(world.custody_balance(&SENDER, &RECEIVER, 0), Some(0));
    assert_eq!(world.custody_balance(&SENDER, &RECEIVER, 1), Some(2000));
}

#[test]
fn derivation_is_deterministic() {
    let prefix = state_seed_bytes();
    let first = derive_identity(prefix.as_slice(), &SENDER, &RECEIVER, 0, &PROGRAM).unwrap();
    let second = derive_identity(prefix.as_slice(), &SENDER, &RECEIVER, 0, &PROGRAM).unwrap();
    assert_eq!(first.0, second.0);
    assert_eq!(first.1, second.1);
}

#[test]
fn derived_addresses_separate_roles_and_triples() {
    let state_prefix = state_seed_bytes();
    let wallet_prefix = wallet_seed_bytes();
    let (state0, _) =
        derive_identity(state_prefix.as_slice(), &SENDER, &RECEIVER, 0, &PROGRAM).unwrap();
    let (wallet0, _) =
        derive_identity(wallet_prefix.as_slice(), &SENDER, &RECEIVER, 0, &PROGRAM).unwrap();
    let (state1, _) =
        derive_identity(state_prefix.as_slice(), &SENDER, &RECEIVER, 1, &PROGRAM).unwrap();
    // the two role prefixes never collide for one triple, and distinct
    // indexes give distinct record addresses
    assert_ne!(state0, wallet0);
    assert_ne!(state0, state1);
    // a derived address is a new identity, not an echo of an input
    assert_ne!(state0, SENDER);
    assert_ne!(state0, RECEIVER);
    assert_ne!(state0, PROGRAM);
}

#[test]
fn refund_after_release_fails() {
    let mut world = funded_ledger();
    world.deposite_grant(&SENDER, &RECEIVER, 0, 1000).unwrap();
    let (sb, wb) = tags(&SENDER, &RECEIVER, 0);
    assert_eq!(world.complete_grant(&SENDER, &RECEIVER, 0, sb, wb, 1000), Ok(()));
    assert_eq!(
        world.withdraw_grant(&SENDER, &RECEIVER, 0, sb, wb, 1000),
        Err(ErrorCode::AlreadySettled)
    );
    assert_eq!(world.balance_of(&SENDER), Some(4000));
    assert_eq!(world.balance_of(&RECEIVER), Some(1100));
}

#[test]
fn release_after_refund_fails() {
    let mut world = funded_ledger();
    world.deposite_grant(&SENDER, &RECEIVER, 0, 1000).unwrap();
    let (sb, wb) = tags(&SENDER, &RECEIVER, 0);
    assert_eq!(world.withdraw_grant(&SENDER, &RECEIVER, 0, sb, wb, 1000), Ok(()));
    assert_eq!(
        world.complete_grant(&SENDER, &RECEIVER, 0, sb, wb, 1000),
        Err(ErrorCode::AlreadySettled)
    );
    assert_eq!(world.balance_of(&SENDER), Some(5000));
    assert_eq!(world.balance_of(&RECEIVER), Some(100));
}
