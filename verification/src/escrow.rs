//! The escrow saga.
//!
//! An escrow correlates a holding account with a buyer, a seller and a
//! declared amount, and moves through four steps: create, fund, release,
//! refund.  Funding moves the buyer's whole vault into one note addressed
//! to the escrow holder.  Release and refund are two-phase: first every
//! pending note of the escrow holder is consumed, then — after a resync —
//! the holder's vault is forwarded in one note to the seller or back to
//! the buyer.  The ledger calls happen outside; this module decides each
//! step from the observations passed in.

use vstd::prelude::*;

use crate::errors::ServiceError;
use crate::hexid::AccountId;
use crate::model::{assets_view, notes_view, Asset, NoteId, TxId};
use crate::notes::{plan_consume, plan_transfer, AssetSelection, ConsumePlan, TransferPlan};
use crate::registry::{AccountRef, AccountRegistry};

verus! {

/// The advisory status label an escrow carries.
///
/// The label is caller-supplied and is never derived from actual vault or
/// note state; no step of the saga is gated on it.
#[derive(Clone, Copy, Debug, PartialEq, Eq, Structural)]
pub enum EscrowStatus {
    Created,
    Funded,
    Released,
    Refunded,
    Disputed,
}

/// An escrow: a holding account correlated with buyer and seller and a
/// declared amount.
#[derive(Debug)]
pub struct EscrowAccount {
    /// The freshly created holding account.
    pub escrow_account_id: AccountId,
    /// The account that funds the escrow.
    pub buyer_account_id: AccountId,
    /// The account a release forwards to.
    pub seller_account_id: AccountId,
    /// The declared amount of the transaction.
    pub amount: u64,
    /// Advisory status label.
    pub status: EscrowStatus,
}

impl EscrowAccount {
    /// The three correlated accounts are pairwise distinct.
    pub open spec fn distinct_ids(self) -> bool {
        &&& self.escrow_account_id@ != self.buyer_account_id@
        &&& self.escrow_account_id@ != self.seller_account_id@
        &&& self.buyer_account_id@ != self.seller_account_id@
    }

    /// A copy of this escrow record.
    pub fn duplicate(&self) -> (r: EscrowAccount)
        ensures
            r.escrow_account_id@ == self.escrow_account_id@,
            r.buyer_account_id@ == self.buyer_account_id@,
            r.seller_account_id@ == self.seller_account_id@,
            r.amount == self.amount,
            r.status == self.status,
    {
        EscrowAccount {
            escrow_account_id: self.escrow_account_id.duplicate(),
            buyer_account_id: self.buyer_account_id.duplicate(),
            seller_account_id: self.seller_account_id.duplicate(),
            amount: self.amount,
            status: self.status,
        }
    }
}

/// Creates a new escrow over a freshly allocated holding account.
///
/// The holding account is allocated outside, with freshly generated
/// signing material, before this step records the escrow; a fresh
/// identifier never collides with the resolved buyer or seller, which is
/// what the caller warrants here.  Either reference failing to resolve
/// fails the step with that reference's error, buyer first.
pub fn create_escrow(
    registry: &AccountRegistry,
    buyer_ref: &AccountRef,
    seller_ref: &AccountRef,
    amount: u64,
    escrow_account_id: AccountId,
) -> (r: Result<EscrowAccount, ServiceError>)
    requires
        registry.resolve_spec(*buyer_ref) matches Ok(b) ==> b != escrow_account_id@,
        registry.resolve_spec(*seller_ref) matches Ok(s) ==> s != escrow_account_id@,
        (match (registry.resolve_spec(*buyer_ref), registry.resolve_spec(*seller_ref)) {
            (Ok(b), Ok(s)) => b != s,
            _ => true,
        }),
    ensures
        r is Ok <==> (registry.resolve_spec(*buyer_ref) is Ok && registry.resolve_spec(*seller_ref)
            is Ok),
        (match (registry.resolve_spec(*buyer_ref), registry.resolve_spec(*seller_ref)) {
            (Ok(b), Ok(s)) => (r matches Ok(e) && e.escrow_account_id@ == escrow_account_id@
                && e.buyer_account_id@ == b && e.seller_account_id@ == s && e.amount == amount
                && e.status is Created),
            (Err(eb), _) => r == Err::<EscrowAccount, ServiceError>(eb),
            (Ok(_), Err(es)) => r == Err::<EscrowAccount, ServiceError>(es),
        }),
        r matches Ok(e) ==> e.distinct_ids(),
{
    let buyer_account_id = match registry.resolve(buyer_ref) {
        Ok(id) => id,
        Err(e) => {
            return Err(e);
        },
    };
    let seller_account_id = match registry.resolve(seller_ref) {
        Ok(id) => id,
        Err(e) => {
            return Err(e);
        },
    };
    Ok(
        EscrowAccount {
            escrow_account_id,
            buyer_account_id,
            seller_account_id,
            amount,
            status: EscrowStatus::Created,
        },
    )
}

/// Funds an escrow from the buyer's observed vault.
///
/// Fails with an empty-vault error exactly when the buyer's vault is
/// empty at call time; otherwise the whole vault goes into one note
/// addressed to the escrow holder.  The note is not consumed into the
/// holder's vault here — that is a separate, caller-triggered step.
pub fn fund_escrow(escrow: &EscrowAccount, buyer_vault: &Vec<Asset>) -> (r: Result<
    TransferPlan,
    ServiceError,
>)
    ensures
        r is Ok <==> buyer_vault@.len() > 0,
        r is Err ==> r == Err::<TransferPlan, ServiceError>(ServiceError::EmptyVault),
        r matches Ok(p) ==> p.source@ == escrow.buyer_account_id@ && p.destination@
            == escrow.escrow_account_id@ && assets_view(p.assets@) == assets_view(buyer_vault@),
{
    plan_transfer(
        &escrow.buyer_account_id,
        &escrow.escrow_account_id,
        buyer_vault,
        AssetSelection::WholeVault,
    )
}

/// A successful fund hands back the ledger's receipt for the one
/// submitted funding transaction, and that identifier is never empty:
/// an empty rendering cannot become a transaction identifier at all.
pub proof fn lemma_fund_receipt_nonempty(receipt: TxId)
    requires
        receipt.wf(),
    ensures
        receipt@.len() > 0,
{
}

/// Where a release or refund forwards the escrow holder's vault.
#[derive(Clone, Copy, Debug, PartialEq, Eq, Structural)]
pub enum ForwardDestination {
    /// Release: forward to the seller.
    ToSeller,
    /// Refund: forward back to the buyer.
    ToBuyer,
}

/// Progress of a release or refund.
#[derive(Clone, Copy, Debug, PartialEq, Eq, Structural)]
pub enum ForwardPhase {
    /// Phase one begins: the escrow holder's consumable notes are to be
    /// read, after a resync.
    AwaitNotes,
    /// The consume transaction is being submitted.
    AwaitConsumeReceipt,
    /// The consume transaction is submitted; vault contents are only
    /// guaranteed visible after a resync, so one is required now.
    AwaitResync,
    /// Phase two: the escrow holder's vault is to be read.
    AwaitVault,
    /// The forwarding transaction is being submitted.
    AwaitForwardReceipt,
    /// Both transactions submitted; the operation's result is the second
    /// receipt.
    Complete,
    /// The operation failed; `failure` says why.
    Failed,
}

/// A release or refund in progress: a two-phase saga over the escrow
/// holder's notes and vault.
///
/// Phase two never starts before phase one's consumption is submitted
/// and a resync followed: the phase order is enforced by the contracts
/// of the step methods.
#[derive(Debug)]
pub struct ForwardSaga {
    /// The escrow being settled.
    pub escrow: EscrowAccount,
    /// Seller for a release, buyer for a refund.
    pub destination: ForwardDestination,
    /// Progress of the saga.
    pub phase: ForwardPhase,
    /// How many transactions have been submitted for this operation.
    pub submissions: u64,
    /// Receipt of the phase-one consume transaction.
    pub consume_receipt: Option<TxId>,
    /// Receipt of the phase-two forwarding transaction.
    pub forward_receipt: Option<TxId>,
    /// Why the saga failed, if it did.
    pub failure: Option<ServiceError>,
}

impl ForwardSaga {
    /// The identifier the forwarded note is addressed to.
    pub open spec fn destination_id(self) -> Seq<u8> {
        match self.destination {
            ForwardDestination::ToSeller => self.escrow.seller_account_id@,
            ForwardDestination::ToBuyer => self.escrow.buyer_account_id@,
        }
    }

    /// Invariant tying each phase to the transactions performed so far.
    pub open spec fn wf(self) -> bool {
        &&& (self.phase is AwaitNotes || self.phase is AwaitConsumeReceipt ==> self.submissions
            == 0 && self.consume_receipt is None && self.forward_receipt is None && self.failure
            is None)
        &&& (self.phase is AwaitResync || self.phase is AwaitVault || self.phase
            is AwaitForwardReceipt ==> self.submissions == 1 && (self.consume_receipt matches Some(
            t,
        ) && t.wf()) && self.forward_receipt is None && self.failure is None)
        &&& (self.phase is Complete ==> self.submissions == 2 && (self.consume_receipt
            matches Some(c) && c.wf()) && (self.forward_receipt matches Some(f) && f.wf())
            && self.failure is None)
        &&& (self.phase is Failed ==> self.failure is Some)
    }

    /// Begins settling an escrow toward a destination.
    pub fn start(escrow: EscrowAccount, destination: ForwardDestination) -> (r: ForwardSaga)
        ensures
            r.wf(),
            r.phase is AwaitNotes,
            r.escrow == escrow,
            r.destination == destination,
            r.submissions == 0,
    {
        ForwardSaga {
            escrow,
            destination,
            phase: ForwardPhase::AwaitNotes,
            submissions: 0,
            consume_receipt: None,
            forward_receipt: None,
            failure: None,
        }
    }

    /// Phase one: plans the consumption of the escrow holder's pending
    /// notes.
    ///
    /// Fails with a no-consumable-notes error exactly when the holder
    /// has zero pending notes at call time; otherwise one transaction
    /// covers all of them.
    pub fn on_notes(&mut self, observed: &Vec<NoteId>) -> (r: Result<ConsumePlan, ServiceError>)
        requires
            old(self).wf(),
            old(self).phase is AwaitNotes,
        ensures
            final(self).wf(),
            r is Ok <==> observed@.len() > 0,
            observed@.len() == 0 ==> r == Err::<ConsumePlan, ServiceError>(
                ServiceError::NoConsumableNotes,
            ) && final(self).phase is Failed && final(self).failure == Some(
                ServiceError::NoConsumableNotes,
            ),
            observed@.len() > 0 ==> (r matches Ok(plan) && plan.account@ == old(
                self,
            ).escrow.escrow_account_id@ && notes_view(plan.notes@) == notes_view(observed@)
                && final(self).phase is AwaitConsumeReceipt),
            final(self).escrow == old(self).escrow,
            final(self).destination == old(self).destination,
            final(self).submissions == 0,
    {
        match plan_consume(&self.escrow.escrow_account_id, observed) {
            Ok(plan) => {
                self.phase = ForwardPhase::AwaitConsumeReceipt;
                Ok(plan)
            },
            Err(e) => {
                self.phase = ForwardPhase::Failed;
                self.failure = Some(e);
                Err(e)
            },
        }
    }

    /// Records the submitted consume transaction: the first of the
    /// operation's two submissions.
    pub fn on_consume_submitted(&mut self, tx: TxId)
        requires
            old(self).wf(),
            old(self).phase is AwaitConsumeReceipt,
            tx.wf(),
        ensures
            final(self).wf(),
            final(self).phase is AwaitResync,
            final(self).submissions == 1,
            final(self).consume_receipt matches Some(t) && t@ == tx@,
            final(self).escrow == old(self).escrow,
            final(self).destination == old(self).destination,
    {
        self.consume_receipt = Some(tx);
        self.submissions = 1;
        self.phase = ForwardPhase::AwaitResync;
    }

    /// Records the resync that must separate consumption from the vault
    /// read: vault contents are only guaranteed visible after it.
    pub fn on_resynced(&mut self)
        requires
            old(self).wf(),
            old(self).phase is AwaitResync,
        ensures
            final(self).wf(),
            final(self).phase is AwaitVault,
            final(self).submissions == 1,
            final(self).consume_receipt == old(self).consume_receipt,
            final(self).escrow == old(self).escrow,
            final(self).destination == old(self).destination,
    {
        self.phase = ForwardPhase::AwaitVault;
    }

    /// Phase two: plans forwarding the escrow holder's vault to the
    /// destination.
    ///
    /// Fails with an empty-vault error exactly when the vault is still
    /// empty after phase one; otherwise the whole vault goes into one
    /// note addressed to the destination.
    pub fn on_vault(&mut self, vault: &Vec<Asset>) -> (r: Result<TransferPlan, ServiceError>)
        requires
            old(self).wf(),
            old(self).phase is AwaitVault,
        ensures
            final(self).wf(),
            r is Ok <==> vault@.len() > 0,
            vault@.len() == 0 ==> r == Err::<TransferPlan, ServiceError>(ServiceError::EmptyVault)
                && final(self).phase is Failed && final(self).failure == Some(
                ServiceError::EmptyVault,
            ),
            vault@.len() > 0 ==> (r matches Ok(plan) && plan.source@ == old(
                self,
            ).escrow.escrow_account_id@ && plan.destination@ == old(self).destination_id()
                && assets_view(plan.assets@) == assets_view(vault@) && final(self).phase
                is AwaitForwardReceipt),
            final(self).submissions == 1,
            final(self).escrow == old(self).escrow,
            final(self).destination == old(self).destination,
            final(self).consume_receipt == old(self).consume_receipt,
    {
        let destination: &AccountId = match self.destination {
            ForwardDestination::ToSeller => &self.escrow.seller_account_id,
            ForwardDestination::ToBuyer => &self.escrow.buyer_account_id,
        };
        match plan_transfer(
            &self.escrow.escrow_account_id,
            destination,
            vault,
            AssetSelection::WholeVault,
        ) {
            Ok(plan) => {
                self.phase = ForwardPhase::AwaitForwardReceipt;
                Ok(plan)
            },
            Err(e) => {
                self.phase = ForwardPhase::Failed;
                self.failure = Some(e);
                Err(e)
            },
        }
    }

    /// Records the submitted forwarding transaction — the second and
    /// last submission — and returns its identifier, the overall result
    /// of the operation.
    pub fn on_forward_submitted(&mut self, tx: TxId) -> (r: TxId)
        requires
            old(self).wf(),
            old(self).phase is AwaitForwardReceipt,
            tx.wf(),
        ensures
            final(self).wf(),
            final(self).phase is Complete,
            final(self).submissions == 2,
            final(self).forward_receipt matches Some(t) && t@ == tx@,
            final(self).consume_receipt == old(self).consume_receipt,
            r@ == tx@,
            r.wf(),
            final(self).escrow == old(self).escrow,
            final(self).destination == old(self).destination,
    {
        let r = tx.duplicate();
        self.forward_receipt = Some(tx);
        self.submissions = 2;
        self.phase = ForwardPhase::Complete;
        r
    }

    /// Records that an underlying ledger call failed; the saga reports
    /// the failure and stops.
    pub fn on_ledger_failure(&mut self)
        requires
            old(self).wf(),
            !(old(self).phase is Complete),
            !(old(self).phase is Failed),
        ensures
            final(self).wf(),
            final(self).phase is Failed,
            final(self).failure == Some(ServiceError::NetworkFailure),
    {
        self.failure = Some(ServiceError::NetworkFailure);
        self.phase = ForwardPhase::Failed;
    }
}

/// Starts a release: both phases forward the escrow holder's funds to
/// the seller.
pub fn release_escrow(escrow: &EscrowAccount) -> (r: ForwardSaga)
    ensures
        r.wf(),
        r.phase is AwaitNotes,
        r.destination is ToSeller,
        r.escrow.escrow_account_id@ == escrow.escrow_account_id@,
        r.escrow.buyer_account_id@ == escrow.buyer_account_id@,
        r.escrow.seller_account_id@ == escrow.seller_account_id@,
        r.destination_id() == escrow.seller_account_id@,
{
    ForwardSaga::start(escrow.duplicate(), ForwardDestination::ToSeller)
}

/// Starts a refund: identical two-phase structure to a release, with the
/// buyer as the forwarding destination.
pub fn refund_escrow(escrow: &EscrowAccount) -> (r: ForwardSaga)
    ensures
        r.wf(),
        r.phase is AwaitNotes,
        r.destination is ToBuyer,
        r.escrow.escrow_account_id@ == escrow.escrow_account_id@,
        r.escrow.buyer_account_id@ == escrow.buyer_account_id@,
        r.escrow.seller_account_id@ == escrow.seller_account_id@,
        r.destination_id() == escrow.buyer_account_id@,
{
    ForwardSaga::start(escrow.duplicate(), ForwardDestination::ToBuyer)
}

/// A completed release or refund performed exactly two submitted
/// transactions — the consume, then the forward — and its result is the
/// second receipt.
pub proof fn lemma_complete_forward_two_submissions(s: ForwardSaga)
    requires
        s.wf(),
        s.phase is Complete,
    ensures
        s.submissions == 2,
        s.consume_receipt is Some,
        s.forward_receipt is Some,
{
}

/// A release or refund never completes without passing phase one: every
/// phase past the notes read carries the consume receipt.
pub proof fn lemma_no_phase_skipped(s: ForwardSaga)
    requires
        s.wf(),
        s.phase is AwaitResync || s.phase is AwaitVault || s.phase is AwaitForwardReceipt
            || s.phase is Complete,
    ensures
        s.consume_receipt is Some,
        s.submissions >= 1,
{
}

} // verus!
