//! The escrow saga: create, fund, release, refund.

use miden_rust_service::errors::{check_accreditation_threshold, ServiceError};
use miden_rust_service::escrow::{
    create_escrow, fund_escrow, refund_escrow, release_escrow, EscrowAccount, EscrowStatus,
    ForwardPhase,
};
use miden_rust_service::hexid::AccountId;
use miden_rust_service::model::{Asset, NoteId, TxId};
use miden_rust_service::registry::{AccountRef, AccountRegistry, Role};

fn id_with_tag(tag: u8) -> AccountId {
    let mut v: Vec<u8> = vec![0; 15];
    v[0] = tag;
    AccountId::from_bytes(v).unwrap()
}

fn bootstrapped() -> AccountRegistry {
    AccountRegistry::bootstrap(id_with_tag(1), id_with_tag(2), id_with_tag(3))
}

fn tx(label: &[u8]) -> TxId {
    TxId::from_bytes(label.to_vec()).unwrap()
}

fn sample_escrow() -> EscrowAccount {
    create_escrow(
        &bootstrapped(),
        &AccountRef::ByRole(Role::Buyer),
        &AccountRef::ByRole(Role::Seller),
        500,
        id_with_tag(9),
    )
    .unwrap()
}

#[test]
fn create_returns_distinct_accounts_with_created_status() {
    let escrow = sample_escrow();
    assert_eq!(escrow.status, EscrowStatus::Created);
    assert_eq!(escrow.amount, 500);
    assert!(escrow.buyer_account_id.same_id(&id_with_tag(1)));
    assert!(escrow.seller_account_id.same_id(&id_with_tag(2)));
    assert!(escrow.escrow_account_id.same_id(&id_with_tag(9)));
    assert!(!escrow.escrow_account_id.same_id(&escrow.buyer_account_id));
    assert!(!escrow.escrow_account_id.same_id(&escrow.seller_account_id));
    assert!(!escrow.buyer_account_id.same_id(&escrow.seller_account_id));
}

#[test]
fn create_fails_when_a_role_is_unassigned() {
    let reg = AccountRegistry::new();
    let r = create_escrow(
        &reg,
        &AccountRef::ByRole(Role::Buyer),
        &AccountRef::ByRole(Role::Seller),
        500,
        id_with_tag(9),
    );
    assert!(matches!(r, Err(ServiceError::NotInitialized)));
}

#[test]
fn fund_fails_exactly_on_empty_buyer_vault() {
    let escrow = sample_escrow();
    let empty: Vec<Asset> = Vec::new();
    assert!(matches!(
        fund_escrow(&escrow, &empty),
        Err(ServiceError::EmptyVault)
    ));
    let vault = vec![Asset { faucet: id_with_tag(3), amount: 20_000_000 }];
    let plan = fund_escrow(&escrow, &vault).unwrap();
    assert!(plan.source.same_id(&escrow.buyer_account_id));
    assert!(plan.destination.same_id(&escrow.escrow_account_id));
    assert_eq!(plan.assets, vault);
}

#[test]
fn release_with_no_pending_notes_fails() {
    let escrow = sample_escrow();
    let mut saga = release_escrow(&escrow);
    let none: Vec<NoteId> = Vec::new();
    assert!(matches!(
        saga.on_notes(&none),
        Err(ServiceError::NoConsumableNotes)
    ));
    assert_eq!(saga.phase, ForwardPhase::Failed);
    assert_eq!(saga.failure, Some(ServiceError::NoConsumableNotes));
    assert_eq!(saga.submissions, 0);
}

#[test]
fn refund_with_no_pending_notes_fails() {
    let escrow = sample_escrow();
    let mut saga = refund_escrow(&escrow);
    let none: Vec<NoteId> = Vec::new();
    assert!(matches!(
        saga.on_notes(&none),
        Err(ServiceError::NoConsumableNotes)
    ));
    assert_eq!(saga.phase, ForwardPhase::Failed);
}

#[test]
fn release_performs_consume_then_forward_and_returns_second_id() {
    let escrow = sample_escrow();
    let mut saga = release_escrow(&escrow);
    let notes = vec![
        NoteId::from_bytes(b"n1".to_vec()),
        NoteId::from_bytes(b"n2".to_vec()),
    ];
    let consume_plan = saga.on_notes(&notes).unwrap();
    assert!(consume_plan.account.same_id(&escrow.escrow_account_id));
    assert_eq!(consume_plan.notes, notes);
    saga.on_consume_submitted(tx(b"T-consume"));
    saga.on_resynced();
    let vault = vec![Asset { faucet: id_with_tag(3), amount: 42 }];
    let forward_plan = saga.on_vault(&vault).unwrap();
    assert!(forward_plan.source.same_id(&escrow.escrow_account_id));
    assert!(forward_plan.destination.same_id(&escrow.seller_account_id));
    assert_eq!(forward_plan.assets, vault);
    let result = saga.on_forward_submitted(tx(b"T-forward"));
    assert_eq!(result.as_bytes(), &b"T-forward".to_vec());
    assert_eq!(saga.phase, ForwardPhase::Complete);
    assert_eq!(saga.submissions, 2);
}

#[test]
fn refund_forwards_to_the_buyer() {
    let escrow = sample_escrow();
    let mut saga = refund_escrow(&escrow);
    let notes = vec![NoteId::from_bytes(b"n1".to_vec())];
    saga.on_notes(&notes).unwrap();
    saga.on_consume_submitted(tx(b"T-consume"));
    saga.on_resynced();
    let vault = vec![Asset { faucet: id_with_tag(3), amount: 42 }];
    let forward_plan = saga.on_vault(&vault).unwrap();
    assert!(forward_plan.destination.same_id(&escrow.buyer_account_id));
}

#[test]
fn release_fails_if_vault_still_empty_after_consumption() {
    let escrow = sample_escrow();
    let mut saga = release_escrow(&escrow);
    let notes = vec![NoteId::from_bytes(b"n1".to_vec())];
    saga.on_notes(&notes).unwrap();
    saga.on_consume_submitted(tx(b"T-consume"));
    saga.on_resynced();
    let empty: Vec<Asset> = Vec::new();
    assert!(matches!(
        saga.on_vault(&empty),
        Err(ServiceError::EmptyVault)
    ));
    assert_eq!(saga.phase, ForwardPhase::Failed);
    assert_eq!(saga.failure, Some(ServiceError::EmptyVault));
}

#[test]
fn ledger_failure_surfaces_as_network_failure() {
    let escrow = sample_escrow();
    let mut saga = release_escrow(&escrow);
    let notes = vec![NoteId::from_bytes(b"n1".to_vec())];
    saga.on_notes(&notes).unwrap();
    saga.on_ledger_failure();
    assert_eq!(saga.phase, ForwardPhase::Failed);
    assert_eq!(saga.failure, Some(ServiceError::NetworkFailure));
    assert_eq!(ServiceError::NetworkFailure.message(), "ledger call failed");
}

#[test]
fn one_asset_escrow_lifecycle_returns_the_third_transaction() {
    // The buyer vault holds exactly one asset unit.  Funding returns the
    // note plan submitted as T1; after external consumption makes the
    // funding note consumable, release consumes it (T2) and forwards the
    // vault (T3), returning T3.
    let escrow = sample_escrow();
    let buyer_vault = vec![Asset { faucet: id_with_tag(3), amount: 1 }];
    let fund_plan = fund_escrow(&escrow, &buyer_vault).unwrap();
    assert_eq!(fund_plan.assets.len(), 1);
    let fund_receipt = tx(b"T1");
    assert_eq!(fund_receipt.as_bytes(), &b"T1".to_vec());

    // The ledger finalized T1: the funding note is now consumable by the
    // escrow holder.
    let pending = vec![NoteId::from_bytes(b"funding-note".to_vec())];
    let mut saga = release_escrow(&escrow);
    let consume_plan = saga.on_notes(&pending).unwrap();
    assert_eq!(consume_plan.notes, pending);
    saga.on_consume_submitted(tx(b"T2"));
    saga.on_resynced();
    let escrow_vault = vec![Asset { faucet: id_with_tag(3), amount: 1 }];
    saga.on_vault(&escrow_vault).unwrap();
    let result = saga.on_forward_submitted(tx(b"T3"));
    assert_eq!(result.as_bytes(), &b"T3".to_vec());
    assert_eq!(saga.submissions, 2);
}

#[test]
fn threshold_check_accepts_exactly_at_the_threshold() {
    assert!(check_accreditation_threshold(1_000_000, 1_000_000).is_ok());
    assert!(check_accreditation_threshold(2_000_000, 1_000_000).is_ok());
    assert_eq!(
        check_accreditation_threshold(999_999, 1_000_000),
        Err(ServiceError::ThresholdNotMet)
    );
    assert_eq!(ServiceError::ThresholdNotMet.message(), "threshold not met");
}
