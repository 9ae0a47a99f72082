//! Worker startup.
//!
//! The single worker owns the ledger client exclusively.  Before it may
//! process commands it performs an initial state sync and then bootstraps
//! the fixed set of role accounts.  If bootstrap fails the worker must
//! terminate, and every command still queued or arriving later must fail
//! with a transport error — which `on_failure` guarantees by closing the
//! command queue.

use vstd::prelude::*;

use crate::hexid::AccountId;
use crate::queue::CommandQueue;
use crate::registry::{AccountRegistry, Role};

verus! {

/// Progress of the worker's startup sequence.
#[derive(Clone, Copy, Debug, PartialEq, Eq, Structural)]
pub enum StartupPhase {
    /// The initial state sync has not completed yet.
    AwaitInitialSync,
    /// Synced; the role accounts are to be bootstrapped or loaded.
    AwaitRoleAccounts,
    /// The worker may process commands.
    Ready,
    /// Startup failed; the worker terminates.
    Failed,
}

/// The startup sequence of the worker, step by step.
#[derive(Debug)]
pub struct WorkerStartup {
    /// Where startup stands.
    pub phase: StartupPhase,
}

impl WorkerStartup {
    /// Startup begins with the initial state sync.
    pub fn begin() -> (r: WorkerStartup)
        ensures
            r.phase is AwaitInitialSync,
    {
        WorkerStartup { phase: StartupPhase::AwaitInitialSync }
    }

    /// Records the completed initial sync; the role accounts come next.
    pub fn on_initial_sync(&mut self)
        requires
            old(self).phase is AwaitInitialSync,
        ensures
            final(self).phase is AwaitRoleAccounts,
    {
        self.phase = StartupPhase::AwaitRoleAccounts;
    }

    /// Records the bootstrapped role accounts and hands out the registry
    /// the worker will resolve against; the worker is now ready.
    pub fn on_role_accounts(&mut self, buyer: AccountId, seller: AccountId, faucet: AccountId) -> (r:
        AccountRegistry)
        requires
            old(self).phase is AwaitRoleAccounts,
        ensures
            final(self).phase is Ready,
            r.role_id(Role::Buyer) == Some(buyer@),
            r.role_id(Role::Seller) == Some(seller@),
            r.role_id(Role::Faucet) == Some(faucet@),
    {
        self.phase = StartupPhase::Ready;
        AccountRegistry::bootstrap(buyer, seller, faucet)
    }

    /// Records a startup failure and closes the command queue, so that
    /// every command still queued or submitted later fails with a
    /// transport error, as the queue's contract then promises.
    pub fn on_failure(&mut self, queue: &mut CommandQueue)
        requires
            !(old(self).phase is Ready),
            old(queue).wf(),
        ensures
            final(self).phase is Failed,
            final(queue).wf(),
            final(queue).is_closed_spec(),
            final(queue)@ == old(queue)@,
    {
        self.phase = StartupPhase::Failed;
        queue.close();
    }
}

} // verus!
