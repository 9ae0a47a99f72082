//! Note lifecycle decisions.
//!
//! A note is submitted by a transaction, becomes consumable once the
//! network's finality delay has passed, and is consumed into the
//! destination vault only by an explicit consume operation.  This module
//! holds the decisions of that lifecycle: what a mint reports before and
//! after the propagation wait, which notes a consumption covers, and
//! which assets a transfer moves.  The ledger calls themselves happen
//! outside; their observations are passed in as plain values.

use vstd::prelude::*;

use crate::errors::ServiceError;
use crate::hexid::{encode_id_spec, encode_with_prefix, AccountId};
use crate::model::{assets_view, notes_view, Asset, NoteId, TxId};

verus! {

/// The outcome of looking for the note a mint produced.
#[derive(Debug)]
pub enum NoteDiscovery {
    /// The note is visible on the ledger under this identifier.
    Found(NoteId),
    /// The note is not visible yet; this synthetic placeholder identifier
    /// was derived from the mint's inputs and must not be treated as
    /// ledger-confirmed.
    PendingSynthetic(NoteId),
    /// The note is not visible and no placeholder applies.
    NotFound,
}

/// The payload a synthetic placeholder identifier encodes: the bytes of
/// `note-` followed by the property identifier.
pub open spec fn synthetic_payload_spec(property_id: Seq<u8>) -> Seq<u8> {
    seq![0x6eu8, 0x6fu8, 0x74u8, 0x65u8, 0x2du8] + property_id
}

/// The synthetic placeholder identifier for a mint of this property:
/// the hex rendering of its payload, `0x`-prefixed.  It is derived from
/// the call's inputs alone, so it is deterministic.
pub open spec fn synthetic_note_id_spec(property_id: Seq<u8>) -> Seq<u8> {
    encode_id_spec(synthetic_payload_spec(property_id))
}

/// Builds the synthetic placeholder identifier for a mint.
pub fn synthetic_note_id(property_id: &Vec<u8>) -> (r: NoteId)
    ensures
        r@ == synthetic_note_id_spec(property_id@),
{
    let mut payload: Vec<u8> = Vec::new();
    payload.push(0x6e);
    payload.push(0x6f);
    payload.push(0x74);
    payload.push(0x65);
    payload.push(0x2d);
    let mut i: usize = 0;
    while i < property_id.len()
        invariant
            i <= property_id@.len(),
            payload@.len() == 5 + i,
            payload@ == synthetic_payload_spec(property_id@.take(i as int)),
        decreases property_id@.len() - i,
    {
        payload.push(property_id[i]);
        proof {
            assert(payload@ =~= synthetic_payload_spec(property_id@.take(i as int + 1)));
        }
        i += 1;
    }
    proof {
        assert(property_id@.take(property_id@.len() as int) =~= property_id@);
    }
    NoteId::from_bytes(encode_with_prefix(&payload))
}

/// Turns an observed list of consumable notes into a discovery outcome:
/// the first visible note wins; otherwise the given placeholder, if any,
/// is reported as pending.
pub fn note_discovery(observed: &Vec<NoteId>, placeholder: Option<NoteId>) -> (r: NoteDiscovery)
    ensures
        observed@.len() > 0 ==> (r matches NoteDiscovery::Found(id) && id@ == observed@[0]@),
        observed@.len() == 0 ==> (placeholder matches Some(p) ==> (r
            matches NoteDiscovery::PendingSynthetic(q) && q@ == p@)),
        observed@.len() == 0 && placeholder is None ==> r is NotFound,
{
    if observed.len() > 0 {
        NoteDiscovery::Found(observed[0].duplicate())
    } else {
        match placeholder {
            Some(p) => NoteDiscovery::PendingSynthetic(p),
            None => NoteDiscovery::NotFound,
        }
    }
}

/// One transaction that consumes notes into an account's vault.
#[derive(Debug)]
pub struct ConsumePlan {
    /// The account the notes are consumed into, which also submits the
    /// transaction.
    pub account: AccountId,
    /// Every note the transaction consumes.
    pub notes: Vec<NoteId>,
}

/// Plans the consumption of an account's consumable notes.
///
/// All or nothing: with no consumable note the operation fails; otherwise
/// one single transaction covers every observed note — there is no
/// selection by amount or identifier.
pub fn plan_consume(account: &AccountId, observed: &Vec<NoteId>) -> (r: Result<
    ConsumePlan,
    ServiceError,
>)
    ensures
        r is Ok <==> observed@.len() > 0,
        r is Err ==> r == Err::<ConsumePlan, ServiceError>(ServiceError::NoConsumableNotes),
        r matches Ok(plan) ==> plan.account@ == account@ && notes_view(plan.notes@) == notes_view(
            observed@,
        ) && plan.notes@.len() == observed@.len(),
{
    if observed.len() == 0 {
        Err(ServiceError::NoConsumableNotes)
    } else {
        Ok(
            ConsumePlan {
                account: account.duplicate(),
                notes: crate::model::duplicate_notes(observed),
            },
        )
    }
}

/// Which assets a transfer moves out of the source vault.
#[derive(Clone, Copy, Debug, PartialEq, Eq, Structural)]
pub enum AssetSelection {
    /// The entire vault contents, in one note.
    WholeVault,
    /// The first asset of the vault only.
    FirstAsset,
}

/// One transaction that moves assets from a source account into a single
/// note addressed to a destination account.
#[derive(Debug)]
pub struct TransferPlan {
    /// The account whose vault supplies the assets; it submits the
    /// transaction.
    pub source: AccountId,
    /// The account the note is addressed to.
    pub destination: AccountId,
    /// The assets bundled into the note.
    pub assets: Vec<Asset>,
}

/// Plans a transfer out of an observed vault.
///
/// An empty vault fails; otherwise one note carries either the whole
/// vault or its first asset, as the call site's selection policy says.
pub fn plan_transfer(
    source: &AccountId,
    destination: &AccountId,
    vault: &Vec<Asset>,
    selection: AssetSelection,
) -> (r: Result<TransferPlan, ServiceError>)
    ensures
        r is Ok <==> vault@.len() > 0,
        r is Err ==> r == Err::<TransferPlan, ServiceError>(ServiceError::EmptyVault),
        r matches Ok(plan) ==> plan.source@ == source@ && plan.destination@ == destination@ && (
        match selection {
            AssetSelection::WholeVault => assets_view(plan.assets@) == assets_view(vault@),
            AssetSelection::FirstAsset => plan.assets@.len() == 1 && plan.assets@[0]@
                == vault@[0]@,
        }),
{
    if vault.len() == 0 {
        Err(ServiceError::EmptyVault)
    } else {
        let assets: Vec<Asset> = match selection {
            AssetSelection::WholeVault => crate::model::duplicate_assets(vault),
            AssetSelection::FirstAsset => {
                let mut one: Vec<Asset> = Vec::new();
                one.push(vault[0].duplicate());
                one
            },
        };
        Ok(TransferPlan { source: source.duplicate(), destination: destination.duplicate(), assets })
    }
}

/// Where a mint stands between submission and note discovery.
#[derive(Clone, Copy, Debug, PartialEq, Eq, Structural)]
pub enum MintPhase {
    /// The mint transaction has not been submitted yet.
    AwaitSubmit,
    /// Submitted; the fixed propagation wait has not elapsed.
    Propagating,
    /// The wait elapsed and state was resynced; the consumable notes of
    /// the target are to be read.
    AwaitNotes,
    /// The discovery outcome is settled.
    Resolved,
}

/// The mint operation: submit a minting transaction from the faucet to a
/// target account, allow for network finality, then look for the
/// resulting note.
///
/// Until the note query after the propagation wait settles the outcome,
/// the operation only ever reports the synthetic placeholder identifier,
/// never a ledger-confirmed one.
#[derive(Debug)]
pub struct MintSaga {
    /// The account the minted assets are addressed to.
    pub target: AccountId,
    /// The property the mint is for; the placeholder is derived from it.
    pub property_id: Vec<u8>,
    /// The synthetic placeholder identifier of this mint.
    pub placeholder: NoteId,
    /// Progress of the operation.
    pub phase: MintPhase,
    /// The identifier of the submitted mint transaction, once known.
    pub receipt: Option<TxId>,
    /// The settled discovery outcome, once known.
    pub outcome: Option<NoteDiscovery>,
}

impl MintSaga {
    /// Invariant tying each phase to what is known in it.
    pub open spec fn wf(self) -> bool {
        &&& self.placeholder@ == synthetic_note_id_spec(self.property_id@)
        &&& (self.phase is AwaitSubmit <==> self.receipt is None)
        &&& (self.phase is Resolved <==> self.outcome is Some)
        &&& (self.receipt matches Some(t) ==> t.wf())
        &&& (self.outcome matches Some(d) ==> !(d is NotFound))
    }

    /// Begins a mint of a property addressed to a target account.
    pub fn start(target: AccountId, property_id: Vec<u8>) -> (r: MintSaga)
        ensures
            r.wf(),
            r.phase is AwaitSubmit,
            r.target@ == target@,
            r.property_id@ == property_id@,
    {
        let placeholder = synthetic_note_id(&property_id);
        MintSaga {
            target,
            property_id,
            placeholder,
            phase: MintPhase::AwaitSubmit,
            receipt: None,
            outcome: None,
        }
    }

    /// Records the submitted mint transaction; the propagation wait
    /// begins.
    pub fn on_submitted(&mut self, tx: TxId)
        requires
            old(self).wf(),
            old(self).phase is AwaitSubmit,
            tx.wf(),
        ensures
            final(self).wf(),
            final(self).phase is Propagating,
            final(self).receipt matches Some(t) && t@ == tx@,
            final(self).target@ == old(self).target@,
            final(self).property_id@ == old(self).property_id@,
            final(self).placeholder@ == old(self).placeholder@,
    {
        self.receipt = Some(tx);
        self.phase = MintPhase::Propagating;
    }

    /// Records that the fixed propagation wait elapsed and local state
    /// was resynced; the target's consumable notes may now be read.
    pub fn on_wait_elapsed(&mut self)
        requires
            old(self).wf(),
            old(self).phase is Propagating,
        ensures
            final(self).wf(),
            final(self).phase is AwaitNotes,
            final(self).receipt == old(self).receipt,
            final(self).target@ == old(self).target@,
            final(self).placeholder@ == old(self).placeholder@,
    {
        self.phase = MintPhase::AwaitNotes;
    }

    /// Settles the discovery outcome from the observed consumable notes
    /// of the target: the first visible note, or the synthetic
    /// placeholder if none is visible yet.
    pub fn on_notes(&mut self, observed: &Vec<NoteId>) -> (r: NoteDiscovery)
        requires
            old(self).wf(),
            old(self).phase is AwaitNotes,
        ensures
            final(self).wf(),
            final(self).phase is Resolved,
            observed@.len() > 0 ==> (r matches NoteDiscovery::Found(id) && id@ == observed@[0]@),
            observed@.len() == 0 ==> (r matches NoteDiscovery::PendingSynthetic(p) && p@ == old(
                self,
            ).placeholder@),
            final(self).receipt == old(self).receipt,
    {
        let r = note_discovery(observed, Some(self.placeholder.duplicate()));
        let recorded = match &r {
            NoteDiscovery::Found(id) => NoteDiscovery::Found(id.duplicate()),
            NoteDiscovery::PendingSynthetic(p) => NoteDiscovery::PendingSynthetic(p.duplicate()),
            NoteDiscovery::NotFound => NoteDiscovery::PendingSynthetic(
                self.placeholder.duplicate(),
            ),
        };
        self.outcome = Some(recorded);
        self.phase = MintPhase::Resolved;
        r
    }

    /// What the operation can report for the minted note right now.
    ///
    /// Before the outcome is settled this is always the synthetic
    /// placeholder: a caller that asks for the note before the
    /// propagation wait elapsed never sees a ledger-confirmed
    /// identifier.
    pub fn current_note(&self) -> (r: NoteDiscovery)
        requires
            self.wf(),
        ensures
            !(self.phase is Resolved) ==> (r matches NoteDiscovery::PendingSynthetic(p) && p@
                == self.placeholder@),
            self.phase is Resolved ==> (match self.outcome {
                Some(d) => discovery_matches(r, d),
                None => false,
            }),
    {
        match &self.outcome {
            Some(d) => {
                match d {
                    NoteDiscovery::Found(id) => NoteDiscovery::Found(id.duplicate()),
                    NoteDiscovery::PendingSynthetic(p) => NoteDiscovery::PendingSynthetic(
                        p.duplicate(),
                    ),
                    NoteDiscovery::NotFound => NoteDiscovery::NotFound,
                }
            },
            None => NoteDiscovery::PendingSynthetic(self.placeholder.duplicate()),
        }
    }
}

/// Two discovery outcomes that report the same thing.
pub open spec fn discovery_matches(a: NoteDiscovery, b: NoteDiscovery) -> bool {
    match (a, b) {
        (NoteDiscovery::Found(x), NoteDiscovery::Found(y)) => x@ == y@,
        (NoteDiscovery::PendingSynthetic(x), NoteDiscovery::PendingSynthetic(y)) => x@ == y@,
        (NoteDiscovery::NotFound, NoteDiscovery::NotFound) => true,
        _ => false,
    }
}

} // verus!
