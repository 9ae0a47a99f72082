//! The command queue and its ordering guarantees.
//!
//! All ledger-mutating work funnels through one bounded, strictly FIFO
//! queue consumed by a single worker that exclusively owns the ledger
//! client, the key store and the randomness source.  A submission against
//! a full or closed queue fails immediately — there is no blocking, no
//! priority and no cancellation.  Each command carries a single-use reply
//! ticket; a worker that stops before replying surfaces as an internal
//! communication error at the dispatcher.

use vstd::prelude::*;

use crate::errors::ServiceError;
use crate::escrow::EscrowAccount;

verus! {

/// Default capacity of the command queue.
pub const DEFAULT_QUEUE_CAPACITY: usize = 100;

/// The typed operations the queue accepts.
#[derive(Debug)]
#[allow(inconsistent_fields)]
pub enum Operation {
    /// Mint a property token to an owner account.
    Mint { property_id: Vec<u8>, owner: Vec<u8>, ipfs_cid: Vec<u8>, property_type: u8, price: u64 },
    /// Report metadata of the bootstrapped role accounts.
    GetAccountInfo,
    /// List the consumable notes of an account.
    GetConsumableNotes { account: Option<Vec<u8>> },
    /// Consume all consumable notes of an account.
    ConsumeNote { note_id: Vec<u8>, account: Option<Vec<u8>> },
    /// Move one asset out of the seller wallet.
    TransferProperty { property_id: Vec<u8>, to_account: Vec<u8> },
    /// Move the seller wallet's whole vault.
    SendTokens { to_account: Vec<u8>, amount: u64 },
    /// Report the balance of a role account.
    GetBalance { account: Vec<u8> },
    /// Create an escrow between a buyer and a seller.
    CreateEscrow { buyer: Vec<u8>, seller: Vec<u8>, amount: u64 },
    /// Fund an escrow from the buyer's vault.
    FundEscrow { escrow: EscrowAccount },
    /// Release an escrow to the seller.
    ReleaseEscrow { escrow: EscrowAccount },
    /// Refund an escrow to the buyer.
    RefundEscrow { escrow: EscrowAccount },
}

/// One queued request: a typed operation plus the single-use reply
/// ticket the dispatcher awaits.
#[derive(Debug)]
pub struct Command {
    /// Correlates the worker's reply with the waiting caller; each
    /// ticket is consumed exactly once.
    pub ticket: u64,
    /// The requested operation.
    pub op: Operation,
}

/// A bounded, strictly FIFO command queue.
#[derive(Debug)]
pub struct CommandQueue {
    items: Vec<Command>,
    capacity: usize,
    closed: bool,
}

impl View for CommandQueue {
    type V = Seq<Command>;

    closed spec fn view(&self) -> Seq<Command> {
        self.items@
    }
}

impl CommandQueue {
    /// The fixed capacity the queue was created with.
    pub closed spec fn capacity_spec(self) -> int {
        self.capacity as int
    }

    /// Has the queue been closed by a terminating worker?
    pub closed spec fn is_closed_spec(self) -> bool {
        self.closed
    }

    /// The queue never holds more commands than its capacity.
    pub open spec fn wf(self) -> bool {
        self@.len() <= self.capacity_spec()
    }

    /// An empty open queue of the given capacity.
    pub fn new(capacity: usize) -> (r: CommandQueue)
        ensures
            r.wf(),
            r@.len() == 0,
            r.capacity_spec() == capacity,
            !r.is_closed_spec(),
    {
        CommandQueue { items: Vec::new(), capacity, closed: false }
    }

    /// How many commands are queued.
    pub fn len(&self) -> (r: usize)
        ensures
            r == self@.len(),
    {
        self.items.len()
    }

    /// Submits a command.
    ///
    /// Backpressure: the submission is accepted exactly when the queue
    /// is open and below capacity; against a full or closed queue it
    /// fails immediately with a transport error instead of blocking.
    pub fn submit(&mut self, cmd: Command) -> (r: Result<(), ServiceError>)
        requires
            old(self).wf(),
        ensures
            final(self).wf(),
            r is Ok <==> (!old(self).is_closed_spec() && old(self)@.len() < old(self).capacity_spec()),
            r is Ok ==> final(self)@ == old(self)@.push(cmd),
            r is Err ==> r == Err::<(), ServiceError>(ServiceError::TransportUnavailable)
                && final(self)@ == old(self)@,
            final(self).capacity_spec() == old(self).capacity_spec(),
            final(self).is_closed_spec() == old(self).is_closed_spec(),
    {
        if self.closed || self.items.len() >= self.capacity {
            Err(ServiceError::TransportUnavailable)
        } else {
            self.items.push(cmd);
            Ok(())
        }
    }

    /// Takes the oldest queued command, if any: commands leave the queue
    /// in exactly the order they were accepted.
    pub fn pop_next(&mut self) -> (r: Option<Command>)
        requires
            old(self).wf(),
        ensures
            final(self).wf(),
            old(self)@.len() == 0 ==> r is None && final(self)@ == old(self)@,
            old(self)@.len() > 0 ==> r == Some(old(self)@[0]) && final(self)@ == old(self)@.skip(1),
            final(self).capacity_spec() == old(self).capacity_spec(),
            final(self).is_closed_spec() == old(self).is_closed_spec(),
    {
        if self.items.len() == 0 {
            None
        } else {
            Some(self.items.remove(0))
        }
    }

    /// Closes the queue.
    ///
    /// The worker closes the queue when it terminates — in particular
    /// when bootstrap fails — so every later submission fails with a
    /// transport error.
    pub fn close(&mut self)
        requires
            old(self).wf(),
        ensures
            final(self).wf(),
            final(self).is_closed_spec(),
            final(self)@ == old(self)@,
            final(self).capacity_spec() == old(self).capacity_spec(),
    {
        self.closed = true;
    }
}

/// The dispatcher's side of the reply path: a reply that never arrived —
/// the worker stopped before replying — surfaces as an internal
/// communication error; an arrived reply is passed through unchanged.
pub fn await_reply<T>(reply: Option<Result<T, ServiceError>>) -> (r: Result<T, ServiceError>)
    ensures
        reply matches Some(x) ==> r == x,
        reply is None ==> r == Err::<T, ServiceError>(ServiceError::InternalCommunicationError),
{
    match reply {
        Some(x) => x,
        None => Err(ServiceError::InternalCommunicationError),
    }
}

/// Strict FIFO: accepting a command never disturbs the commands already
/// queued — it only appends — so commands run in enqueue order with no
/// reordering, batching or priority.
pub proof fn lemma_fifo_order(s: Seq<Command>, c: Command)
    ensures
        s.push(c).take(s.len() as int) == s,
        s.push(c)[s.len() as int] == c,
        s.push(c).len() == s.len() + 1,
{
    assert(s.push(c).take(s.len() as int) =~= s);
}

} // verus!
