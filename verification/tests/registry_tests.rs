//! Account reference parsing and resolution.

use miden_rust_service::errors::ServiceError;
use miden_rust_service::hexid::AccountId;
use miden_rust_service::registry::{
    parse_account_ref, parse_role_name, AccountRef, AccountRegistry, Role,
};

fn id_with_tag(tag: u8) -> AccountId {
    let mut v: Vec<u8> = vec![0; 15];
    v[0] = tag;
    AccountId::from_bytes(v).unwrap()
}

#[test]
fn role_names_parse_to_roles() {
    assert_eq!(parse_role_name(&b"buyer".to_vec()), Ok(Role::Buyer));
    assert_eq!(parse_role_name(&b"seller".to_vec()), Ok(Role::Seller));
    assert_eq!(parse_role_name(&b"faucet".to_vec()), Ok(Role::Faucet));
}

#[test]
fn unknown_role_name_is_rejected() {
    assert_eq!(
        parse_role_name(&b"treasurer".to_vec()),
        Err(ServiceError::UnknownAccount)
    );
    assert_eq!(ServiceError::UnknownAccount.message(), "unknown account");
}

#[test]
fn account_ref_parses_role_and_identifier() {
    match parse_account_ref(&b"buyer".to_vec()) {
        Ok(AccountRef::ByRole(Role::Buyer)) => {}
        other => panic!("expected buyer role, got {:?}", other),
    }
    let hex = b"0x000102030405060708090a0b0c0d0e".to_vec();
    match parse_account_ref(&hex) {
        Ok(AccountRef::ByIdentifier(id)) => assert_eq!(id.encode(), hex),
        other => panic!("expected identifier, got {:?}", other),
    }
}

#[test]
fn account_ref_rejects_unknown_and_malformed() {
    assert!(matches!(
        parse_account_ref(&b"nobody".to_vec()),
        Err(ServiceError::UnknownAccount)
    ));
    assert!(matches!(
        parse_account_ref(&b"0xzz".to_vec()),
        Err(ServiceError::DecodeError(_))
    ));
}

#[test]
fn unassigned_role_is_not_initialized() {
    let reg = AccountRegistry::new();
    assert_eq!(
        reg.resolve(&AccountRef::ByRole(Role::Buyer)),
        Err(ServiceError::NotInitialized)
    );
    assert_eq!(
        ServiceError::NotInitialized.message(),
        "required role account is not initialized"
    );
}

#[test]
fn bootstrap_assigns_every_role() {
    let reg = AccountRegistry::bootstrap(id_with_tag(1), id_with_tag(2), id_with_tag(3));
    assert!(reg.is_ready());
    let buyer = reg.resolve(&AccountRef::ByRole(Role::Buyer)).unwrap();
    let seller = reg.resolve(&AccountRef::ByRole(Role::Seller)).unwrap();
    let faucet = reg.resolve(&AccountRef::ByRole(Role::Faucet)).unwrap();
    assert!(buyer.same_id(&id_with_tag(1)));
    assert!(seller.same_id(&id_with_tag(2)));
    assert!(faucet.same_id(&id_with_tag(3)));
}

#[test]
fn empty_registry_is_not_ready() {
    assert!(!AccountRegistry::new().is_ready());
}

#[test]
fn identifier_reference_resolves_without_registry_entries() {
    let reg = AccountRegistry::new();
    let id = id_with_tag(9);
    let resolved = reg
        .resolve(&AccountRef::ByIdentifier(id_with_tag(9)))
        .unwrap();
    assert!(resolved.same_id(&id));
}

#[test]
fn selector_defaults_to_seller_wallet() {
    let reg = AccountRegistry::bootstrap(id_with_tag(1), id_with_tag(2), id_with_tag(3));
    let chosen = reg.resolve_selector(&None).unwrap();
    assert!(chosen.same_id(&id_with_tag(2)));
}

#[test]
fn selector_accepts_name_and_identifier() {
    let reg = AccountRegistry::bootstrap(id_with_tag(1), id_with_tag(2), id_with_tag(3));
    let by_name = reg.resolve_selector(&Some(b"faucet".to_vec())).unwrap();
    assert!(by_name.same_id(&id_with_tag(3)));
    let by_id = reg
        .resolve_selector(&Some(b"0x090000000000000000000000000000".to_vec()))
        .unwrap();
    assert!(by_id.same_id(&id_with_tag(9)));
    assert_eq!(
        reg.resolve_selector(&Some(b"nobody".to_vec())),
        Err(ServiceError::UnknownAccount)
    );
}
