use escrow_engine::addr::Address;
use escrow_engine::error::EscrowError;
use escrow_engine::ledger::transfer;
use escrow_engine::lifecycle::{fund, make_escrow, refund, release};
use escrow_engine::state::{EscrowRecord, EscrowStatus};

fn fresh_escrow(owner_byte: u8, seed: u64, plan_id: u64) -> (Address, EscrowRecord, Address) {
    let owner = Address::new(vec![owner_byte; 32]);
    let (record, escrow_address, _) = make_escrow(&owner, seed, plan_id, false).unwrap();
    (owner, record, escrow_address)
}

#[test]
fn fund_commits_exactly_the_amount() {
    let (owner, mut record, escrow_address) = fresh_escrow(1, 42, 7);
    let mut owner_balance = 5000u64;
    let mut escrow_balance = 0u64;
    let r = fund(
        &mut record,
        &escrow_address,
        &owner,
        1000,
        &mut owner_balance,
        &mut escrow_balance,
    );
    assert_eq!(r, Ok(EscrowStatus::Funded));
    assert_eq!(record.status, EscrowStatus::Funded);
    assert_eq!(record.committed_balance, 1000);
    assert_eq!(escrow_balance, 1000);
    assert_eq!(owner_balance, 4000);
}

#[test]
fn fund_outside_created_fails_and_moves_nothing() {
    let (owner, mut record, escrow_address) = fresh_escrow(2, 1, 1);
    let mut owner_balance = 5000u64;
    let mut escrow_balance = 0u64;
    fund(&mut record, &escrow_address, &owner, 1000, &mut owner_balance, &mut escrow_balance)
        .unwrap();
    let again = fund(
        &mut record,
        &escrow_address,
        &owner,
        500,
        &mut owner_balance,
        &mut escrow_balance,
    );
    assert_eq!(again, Err(EscrowError::InvalidStatus));
    assert_eq!(record.committed_balance, 1000);
    assert_eq!(escrow_balance, 1000);
    assert_eq!(owner_balance, 4000);
}

#[test]
fn fund_of_zero_fails_before_any_ledger_move() {
    let (owner, mut record, escrow_address) = fresh_escrow(3, 1, 2);
    let mut owner_balance = 5000u64;
    let mut escrow_balance = 0u64;
    let r = fund(&mut record, &escrow_address, &owner, 0, &mut owner_balance, &mut escrow_balance);
    assert_eq!(r, Err(EscrowError::InvalidAmount));
    assert_eq!(record.status, EscrowStatus::Created);
    assert_eq!(owner_balance, 5000);
    assert_eq!(escrow_balance, 0);
}

#[test]
fn fund_by_a_stranger_fails() {
    let (_, mut record, escrow_address) = fresh_escrow(4, 1, 3);
    let stranger = Address::new(vec![99; 32]);
    let mut stranger_balance = 5000u64;
    let mut escrow_balance = 0u64;
    let r = fund(
        &mut record,
        &escrow_address,
        &stranger,
        1000,
        &mut stranger_balance,
        &mut escrow_balance,
    );
    assert_eq!(r, Err(EscrowError::Unauthorized));
    assert_eq!(stranger_balance, 5000);
    assert_eq!(escrow_balance, 0);
}

#[test]
fn fund_without_cover_fails() {
    let (owner, mut record, escrow_address) = fresh_escrow(5, 1, 4);
    let mut owner_balance = 500u64;
    let mut escrow_balance = 0u64;
    let r = fund(
        &mut record,
        &escrow_address,
        &owner,
        1000,
        &mut owner_balance,
        &mut escrow_balance,
    );
    assert_eq!(r, Err(EscrowError::InsufficientFunds));
    assert_eq!(record.status, EscrowStatus::Created);
    assert_eq!(owner_balance, 500);
    assert_eq!(escrow_balance, 0);
}

#[test]
fn release_pays_the_committed_balance_once() {
    let (owner, mut record, escrow_address) = fresh_escrow(6, 2, 1);
    let mut owner_balance = 5000u64;
    let mut escrow_balance = 0u64;
    fund(&mut record, &escrow_address, &owner, 1000, &mut owner_balance, &mut escrow_balance)
        .unwrap();
    let mut payee_balance = 0u64;
    let r = release(&mut record, &escrow_address, true, &mut escrow_balance, &mut payee_balance);
    assert_eq!(r, Ok(EscrowStatus::Released));
    assert_eq!(payee_balance, 1000);
    assert_eq!(escrow_balance, 0);
    assert_eq!(record.committed_balance, 0);
    assert_eq!(record.status, EscrowStatus::Released);
    let again = release(&mut record, &escrow_address, true, &mut escrow_balance, &mut payee_balance);
    assert_eq!(again, Err(EscrowError::InvalidStatus));
    assert_eq!(payee_balance, 1000);
    assert_eq!(escrow_balance, 0);
}

#[test]
fn unauthorized_release_moves_nothing() {
    let (owner, mut record, escrow_address) = fresh_escrow(7, 2, 2);
    let mut owner_balance = 5000u64;
    let mut escrow_balance = 0u64;
    fund(&mut record, &escrow_address, &owner, 1000, &mut owner_balance, &mut escrow_balance)
        .unwrap();
    let mut payee_balance = 0u64;
    let r = release(&mut record, &escrow_address, false, &mut escrow_balance, &mut payee_balance);
    assert_eq!(r, Err(EscrowError::Unauthorized));
    assert_eq!(record.status, EscrowStatus::Funded);
    assert_eq!(payee_balance, 0);
    assert_eq!(escrow_balance, 1000);
}

#[test]
fn refund_mirrors_release_to_the_owner() {
    let (owner, mut record, escrow_address) = fresh_escrow(8, 2, 3);
    let mut owner_balance = 5000u64;
    let mut escrow_balance = 0u64;
    fund(&mut record, &escrow_address, &owner, 1000, &mut owner_balance, &mut escrow_balance)
        .unwrap();
    let r = refund(&mut record, &escrow_address, true, &mut escrow_balance, &mut owner_balance);
    assert_eq!(r, Ok(EscrowStatus::Refunded));
    assert_eq!(owner_balance, 5000);
    assert_eq!(escrow_balance, 0);
    assert_eq!(record.committed_balance, 0);
    assert_eq!(record.status, EscrowStatus::Refunded);
    let again = refund(&mut record, &escrow_address, true, &mut escrow_balance, &mut owner_balance);
    assert_eq!(again, Err(EscrowError::InvalidStatus));
    assert_eq!(owner_balance, 5000);
}

#[test]
fn fund_through_a_tampered_record_fails() {
    let (owner, mut record, escrow_address) = fresh_escrow(9, 3, 1);
    record.plan_id = 2;
    let mut owner_balance = 5000u64;
    let mut escrow_balance = 0u64;
    let r = fund(
        &mut record,
        &escrow_address,
        &owner,
        1000,
        &mut owner_balance,
        &mut escrow_balance,
    );
    assert_eq!(r, Err(EscrowError::InvalidEscrowAddress));
    assert_eq!(owner_balance, 5000);
    assert_eq!(escrow_balance, 0);
}

#[test]
fn full_escrow_scenario() {
    let owner = Address::new(vec![10; 32]);
    let (mut record, escrow_address, _) = make_escrow(&owner, 42, 7, false).unwrap();
    assert_eq!(record.status, EscrowStatus::Created);
    assert_eq!(record.committed_balance, 0);
    let mut owner_balance = 10_000u64;
    let mut escrow_balance = 0u64;
    let funded = fund(
        &mut record,
        &escrow_address,
        &owner,
        1000,
        &mut owner_balance,
        &mut escrow_balance,
    );
    assert_eq!(funded, Ok(EscrowStatus::Funded));
    assert_eq!(escrow_balance, 1000);
    let mut payee_balance = 250u64;
    let released =
        release(&mut record, &escrow_address, true, &mut escrow_balance, &mut payee_balance);
    assert_eq!(released, Ok(EscrowStatus::Released));
    assert_eq!(payee_balance, 1250);
    assert_eq!(escrow_balance, 0);
    assert_eq!(record.status, EscrowStatus::Released);
    let late = fund(
        &mut record,
        &escrow_address,
        &owner,
        1,
        &mut owner_balance,
        &mut escrow_balance,
    );
    assert_eq!(late, Err(EscrowError::InvalidStatus));
}

#[test]
fn competing_releases_pay_exactly_once() {
    let (owner, mut record, escrow_address) = fresh_escrow(11, 5, 5);
    let mut owner_balance = 5000u64;
    let mut escrow_balance = 0u64;
    fund(&mut record, &escrow_address, &owner, 777, &mut owner_balance, &mut escrow_balance)
        .unwrap();
    let mut payee_balance = 0u64;
    let first = release(&mut record, &escrow_address, true, &mut escrow_balance, &mut payee_balance);
    let second =
        release(&mut record, &escrow_address, true, &mut escrow_balance, &mut payee_balance);
    assert_eq!(first, Ok(EscrowStatus::Released));
    assert_eq!(second, Err(EscrowError::InvalidStatus));
    assert_eq!(payee_balance, 777);
}

#[test]
fn transfer_moves_exactly_the_amount() {
    let mut from = 1000u64;
    let mut to = 50u64;
    assert!(transfer(&mut from, &mut to, 400).is_ok());
    assert_eq!(from, 600);
    assert_eq!(to, 450);
    let short = transfer(&mut from, &mut to, 601);
    assert_eq!(short, Err(EscrowError::InsufficientFunds));
    assert_eq!(from, 600);
    assert_eq!(to, 450);
}
