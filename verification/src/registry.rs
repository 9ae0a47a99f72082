//! Resolution of account references.
//!
//! An external caller names an account either by a symbolic role name or
//! by an externally encoded identifier.  Both forms are parsed into the
//! closed reference type [`AccountRef`] and resolved through one lookup
//! function, which centralizes the unknown-account error path.

use vstd::prelude::*;

use crate::errors::ServiceError;
use crate::hexid::{
    decode_account_id, decode_fault_spec, has_hex_prefix, hex_decode_spec, strip_hex_prefix_spec,
    valid_external_id, AccountId,
};

verus! {

/// The fixed roles bootstrapped at startup.
///
/// Escrow-holder accounts are created per escrow and are referred to by
/// identifier, never by role name.
#[derive(Clone, Copy, Debug, PartialEq, Eq, Structural)]
pub enum Role {
    /// The account that funds an escrow.
    Buyer,
    /// The account an escrow is released to.
    Seller,
    /// The token issuer.
    Faucet,
}

/// A reference to an account: a symbolic role or a concrete identifier.
#[derive(Debug, PartialEq, Eq)]
pub enum AccountRef {
    /// One of the bootstrapped role accounts.
    ByRole(Role),
    /// A concrete, already decoded account identifier.
    ByIdentifier(AccountId),
}

/// The symbolic name of the buyer role.
pub open spec fn buyer_name() -> Seq<u8> {
    seq![0x62u8, 0x75u8, 0x79u8, 0x65u8, 0x72u8]
}

/// The symbolic name of the seller role.
pub open spec fn seller_name() -> Seq<u8> {
    seq![0x73u8, 0x65u8, 0x6cu8, 0x6cu8, 0x65u8, 0x72u8]
}

/// The symbolic name of the faucet role.
pub open spec fn faucet_name() -> Seq<u8> {
    seq![0x66u8, 0x61u8, 0x75u8, 0x63u8, 0x65u8, 0x74u8]
}

/// The role a symbolic name denotes, if any.
pub open spec fn role_of_name(s: Seq<u8>) -> Option<Role> {
    if s == buyer_name() {
        Some(Role::Buyer)
    } else if s == seller_name() {
        Some(Role::Seller)
    } else if s == faucet_name() {
        Some(Role::Faucet)
    } else {
        None
    }
}

/// Does this name denote the buyer role?
fn is_buyer_name(n: &Vec<u8>) -> (r: bool)
    ensures
        r == (n@ == buyer_name()),
{
    let r = n.len() == 5 && n[0] == 0x62 && n[1] == 0x75 && n[2] == 0x79 && n[3] == 0x65 && n[4]
        == 0x72;
    proof {
        if r {
            assert(n@ =~= buyer_name());
        }
        if n@ == buyer_name() {
            assert(n@.len() == 5);
        }
    }
    r
}

/// Does this name denote the seller role?
fn is_seller_name(n: &Vec<u8>) -> (r: bool)
    ensures
        r == (n@ == seller_name()),
{
    let r = n.len() == 6 && n[0] == 0x73 && n[1] == 0x65 && n[2] == 0x6c && n[3] == 0x6c && n[4]
        == 0x65 && n[5] == 0x72;
    proof {
        if r {
            assert(n@ =~= seller_name());
        }
        if n@ == seller_name() {
            assert(n@.len() == 6);
        }
    }
    r
}

/// Does this name denote the faucet role?
fn is_faucet_name(n: &Vec<u8>) -> (r: bool)
    ensures
        r == (n@ == faucet_name()),
{
    let r = n.len() == 6 && n[0] == 0x66 && n[1] == 0x61 && n[2] == 0x75 && n[3] == 0x63 && n[4]
        == 0x65 && n[5] == 0x74;
    proof {
        if r {
            assert(n@ =~= faucet_name());
        }
        if n@ == faucet_name() {
            assert(n@.len() == 6);
        }
    }
    r
}

/// Parses a symbolic role name.
///
/// Used by the verbs that accept role names only; any other name is an
/// unknown account.
pub fn parse_role_name(name: &Vec<u8>) -> (r: Result<Role, ServiceError>)
    ensures
        role_of_name(name@) matches Some(role) ==> r == Ok::<Role, ServiceError>(role),
        role_of_name(name@) is None ==> r == Err::<Role, ServiceError>(
            ServiceError::UnknownAccount,
        ),
{
    if is_buyer_name(name) {
        Ok(Role::Buyer)
    } else if is_seller_name(name) {
        Ok(Role::Seller)
    } else if is_faucet_name(name) {
        Ok(Role::Faucet)
    } else {
        Err(ServiceError::UnknownAccount)
    }
}

/// Parses an external account reference: a symbolic role name, or an
/// identifier carrying the `0x` prefix.
///
/// A prefixed string that fails to decode reports its decode fault; an
/// unprefixed string that is no role name is an unknown account.
pub fn parse_account_ref(name: &Vec<u8>) -> (r: Result<AccountRef, ServiceError>)
    ensures
        has_hex_prefix(name@) && valid_external_id(name@) ==> (r matches Ok(
            AccountRef::ByIdentifier(id),
        ) && id@ == hex_decode_spec(strip_hex_prefix_spec(name@))),
        has_hex_prefix(name@) && !valid_external_id(name@) ==> r == Err::<
            AccountRef,
            ServiceError,
        >(ServiceError::DecodeError(decode_fault_spec(name@))),
        !has_hex_prefix(name@) ==> (match role_of_name(name@) {
            Some(role) => r == Ok::<AccountRef, ServiceError>(AccountRef::ByRole(role)),
            None => r == Err::<AccountRef, ServiceError>(ServiceError::UnknownAccount),
        }),
{
    if name.len() >= 2 && name[0] == 0x30 && name[1] == 0x78 {
        match decode_account_id(name) {
            Ok(id) => Ok(AccountRef::ByIdentifier(id)),
            Err(e) => Err(e),
        }
    } else {
        match parse_role_name(name) {
            Ok(role) => Ok(AccountRef::ByRole(role)),
            Err(e) => Err(e),
        }
    }
}

/// The role accounts the worker bootstraps at startup.
///
/// A slot is `None` until bootstrap assigns it; resolving a role whose
/// slot is unassigned reports that the service is not initialized.
#[derive(Debug)]
pub struct AccountRegistry {
    buyer: Option<AccountId>,
    seller: Option<AccountId>,
    faucet: Option<AccountId>,
}

impl AccountRegistry {
    /// The identifier assigned to a role, if any.
    pub closed spec fn role_id(self, role: Role) -> Option<Seq<u8>> {
        let slot = match role {
            Role::Buyer => self.buyer,
            Role::Seller => self.seller,
            Role::Faucet => self.faucet,
        };
        match slot {
            Some(id) => Some(id@),
            None => None,
        }
    }

    /// What resolution returns for a reference against this registry.
    pub open spec fn resolve_spec(self, rf: AccountRef) -> Result<Seq<u8>, ServiceError> {
        match rf {
            AccountRef::ByIdentifier(id) => Ok(id@),
            AccountRef::ByRole(role) => match self.role_id(role) {
                Some(v) => Ok(v),
                None => Err(ServiceError::NotInitialized),
            },
        }
    }

    /// A registry with no role assigned yet.
    pub fn new() -> (r: AccountRegistry)
        ensures
            forall|role: Role| r.role_id(role) is None,
    {
        AccountRegistry { buyer: None, seller: None, faucet: None }
    }

    /// The registry after a successful bootstrap: every role assigned.
    pub fn bootstrap(buyer: AccountId, seller: AccountId, faucet: AccountId) -> (r: AccountRegistry)
        ensures
            r.role_id(Role::Buyer) == Some(buyer@),
            r.role_id(Role::Seller) == Some(seller@),
            r.role_id(Role::Faucet) == Some(faucet@),
    {
        AccountRegistry { buyer: Some(buyer), seller: Some(seller), faucet: Some(faucet) }
    }

    /// Are all role accounts assigned?
    pub fn is_ready(&self) -> (r: bool)
        ensures
            r == (forall|role: Role| self.role_id(role) is Some),
    {
        let r = self.buyer.is_some() && self.seller.is_some() && self.faucet.is_some();
        proof {
            if r {
                assert forall|role: Role| self.role_id(role) is Some by {
                    match role {
                        Role::Buyer => {},
                        Role::Seller => {},
                        Role::Faucet => {},
                    }
                }
            } else {
                if self.buyer is None {
                    assert(self.role_id(Role::Buyer) is None);
                } else if self.seller is None {
                    assert(self.role_id(Role::Seller) is None);
                } else {
                    assert(self.role_id(Role::Faucet) is None);
                }
            }
        }
        r
    }

    /// Resolves a reference to a concrete account identifier.
    ///
    /// This is the one lookup through which every verb reaches an
    /// account handle.
    pub fn resolve(&self, rf: &AccountRef) -> (r: Result<AccountId, ServiceError>)
        ensures
            r is Ok <==> self.resolve_spec(*rf) is Ok,
            r matches Ok(id) ==> self.resolve_spec(*rf) matches Ok(v) && id@ == v,
            r matches Err(e) ==> self.resolve_spec(*rf) == Err::<Seq<u8>, ServiceError>(e),
    {
        match rf {
            AccountRef::ByIdentifier(id) => Ok(id.duplicate()),
            AccountRef::ByRole(role) => {
                let slot: &Option<AccountId> = match role {
                    Role::Buyer => &self.buyer,
                    Role::Seller => &self.seller,
                    Role::Faucet => &self.faucet,
                };
                match slot {
                    Some(id) => Ok(id.duplicate()),
                    None => Err(ServiceError::NotInitialized),
                }
            },
        }
    }

    /// Resolves the optional account selector of a note query or a note
    /// consumption: a named reference if one is given, else the seller
    /// wallet, the default subject of those verbs.
    pub fn resolve_selector(&self, name: &Option<Vec<u8>>) -> (r: Result<AccountId, ServiceError>)
        ensures
            (match name {
                Some(n) => {
                    &&& has_hex_prefix(n@) && valid_external_id(n@) ==> (r matches Ok(id) && id@
                        == hex_decode_spec(strip_hex_prefix_spec(n@)))
                    &&& has_hex_prefix(n@) && !valid_external_id(n@) ==> r == Err::<
                        AccountId,
                        ServiceError,
                    >(ServiceError::DecodeError(decode_fault_spec(n@)))
                    &&& !has_hex_prefix(n@) ==> (match role_of_name(n@) {
                        Some(role) => (match self.role_id(role) {
                            Some(v) => r matches Ok(id) && id@ == v,
                            None => r == Err::<AccountId, ServiceError>(
                                ServiceError::NotInitialized,
                            ),
                        }),
                        None => r == Err::<AccountId, ServiceError>(ServiceError::UnknownAccount),
                    })
                },
                None => (match self.role_id(Role::Seller) {
                    Some(v) => r matches Ok(id) && id@ == v,
                    None => r == Err::<AccountId, ServiceError>(ServiceError::NotInitialized),
                }),
            }),
    {
        match name {
            Some(n) => {
                match parse_account_ref(n) {
                    Ok(rf) => self.resolve(&rf),
                    Err(e) => Err(e),
                }
            },
            None => self.resolve(&AccountRef::ByRole(Role::Seller)),
        }
    }
}

} // verus!
