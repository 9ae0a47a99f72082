//! Plain-value models of ledger data.
//!
//! An asset is a fungible quantity tied to its issuing faucet; a note
//! identifier and a transaction identifier are the opaque handles the
//! ledger hands back.  The core never inspects the ledger's own objects:
//! the surrounding process converts them to these values at the boundary.

use vstd::prelude::*;

use crate::hexid::AccountId;

verus! {

/// A fungible quantity tied to the faucet account that issued it.
#[derive(Debug, PartialEq, Eq)]
pub struct Asset {
    /// Identifier of the issuing faucet account.
    pub faucet: AccountId,
    /// Number of units.
    pub amount: u64,
}

impl View for Asset {
    type V = (Seq<u8>, u64);

    open spec fn view(&self) -> (Seq<u8>, u64) {
        (self.faucet@, self.amount)
    }
}

impl Asset {
    /// A copy of this asset.
    pub fn duplicate(&self) -> (r: Asset)
        ensures
            r@ == self@,
    {
        Asset { faucet: self.faucet.duplicate(), amount: self.amount }
    }
}

/// The contents of a vault or note, asset by asset.
pub open spec fn assets_view(s: Seq<Asset>) -> Seq<(Seq<u8>, u64)> {
    s.map_values(|a: Asset| a@)
}

/// The identifiers in a list of notes, rendered form by rendered form.
pub open spec fn notes_view(s: Seq<NoteId>) -> Seq<Seq<u8>> {
    s.map_values(|n: NoteId| n@)
}

/// A copy of a vault's contents.
pub fn duplicate_assets(v: &Vec<Asset>) -> (r: Vec<Asset>)
    ensures
        assets_view(r@) == assets_view(v@),
        r@.len() == v@.len(),
{
    let mut out: Vec<Asset> = Vec::new();
    let mut i: usize = 0;
    while i < v.len()
        invariant
            i <= v@.len(),
            out@.len() == i,
            forall|j: int| 0 <= j < i ==> (#[trigger] out@[j])@ == v@[j]@,
        decreases v@.len() - i,
    {
        out.push(v[i].duplicate());
        i += 1;
    }
    proof {
        assert(assets_view(out@) =~= assets_view(v@));
    }
    out
}

/// A copy of a list of note identifiers.
pub fn duplicate_notes(v: &Vec<NoteId>) -> (r: Vec<NoteId>)
    ensures
        notes_view(r@) == notes_view(v@),
        r@.len() == v@.len(),
{
    let mut out: Vec<NoteId> = Vec::new();
    let mut i: usize = 0;
    while i < v.len()
        invariant
            i <= v@.len(),
            out@.len() == i,
            forall|j: int| 0 <= j < i ==> (#[trigger] out@[j])@ == v@[j]@,
        decreases v@.len() - i,
    {
        out.push(v[i].duplicate());
        i += 1;
    }
    proof {
        assert(notes_view(out@) =~= notes_view(v@));
    }
    out
}

/// The identifier of a note, as the ledger or this service renders it.
#[derive(Debug, PartialEq, Eq)]
pub struct NoteId {
    bytes: Vec<u8>,
}

impl View for NoteId {
    type V = Seq<u8>;

    closed spec fn view(&self) -> Seq<u8> {
        self.bytes@
    }
}

impl NoteId {
    /// Wraps a rendered note identifier.
    pub fn from_bytes(bytes: Vec<u8>) -> (r: NoteId)
        ensures
            r@ == bytes@,
    {
        NoteId { bytes }
    }

    /// The rendered identifier.
    pub fn as_bytes(&self) -> (r: &Vec<u8>)
        ensures
            r@ == self@,
    {
        &self.bytes
    }

    /// A copy of this note identifier.
    pub fn duplicate(&self) -> (r: NoteId)
        ensures
            r@ == self@,
    {
        NoteId { bytes: self.bytes.clone() }
    }
}

/// The identifier of a submitted transaction.
///
/// The ledger renders every submitted transaction as a non-empty
/// identifier string; an empty rendering is rejected at construction, so
/// holding a `TxId` is proof of a non-empty identifier.
#[derive(Debug, PartialEq, Eq)]
pub struct TxId {
    bytes: Vec<u8>,
}

impl View for TxId {
    type V = Seq<u8>;

    closed spec fn view(&self) -> Seq<u8> {
        self.bytes@
    }
}

impl TxId {
    /// Every transaction identifier is non-empty.
    pub open spec fn wf(self) -> bool {
        self@.len() > 0
    }

    /// Wraps a rendered transaction identifier, rejecting an empty one.
    pub fn from_bytes(bytes: Vec<u8>) -> (r: Option<TxId>)
        ensures
            r is Some <==> bytes@.len() > 0,
            r matches Some(t) ==> t@ == bytes@ && t.wf(),
    {
        if bytes.len() > 0 {
            Some(TxId { bytes })
        } else {
            None
        }
    }

    /// The rendered identifier.
    pub fn as_bytes(&self) -> (r: &Vec<u8>)
        ensures
            r@ == self@,
    {
        &self.bytes
    }

    /// A copy of this transaction identifier.
    pub fn duplicate(&self) -> (r: TxId)
        ensures
            r@ == self@,
            self.wf() ==> r.wf(),
    {
        TxId { bytes: self.bytes.clone() }
    }
}

} // verus!
