//! Worker startup and its effect on the command queue.

use miden_rust_service::errors::ServiceError;
use miden_rust_service::hexid::AccountId;
use miden_rust_service::queue::{Command, CommandQueue, Operation};
use miden_rust_service::registry::{AccountRef, Role};
use miden_rust_service::worker::{StartupPhase, WorkerStartup};

fn id_with_tag(tag: u8) -> AccountId {
    let mut v: Vec<u8> = vec![0; 15];
    v[0] = tag;
    AccountId::from_bytes(v).unwrap()
}

#[test]
fn startup_runs_sync_then_accounts_then_ready() {
    let mut startup = WorkerStartup::begin();
    assert_eq!(startup.phase, StartupPhase::AwaitInitialSync);
    startup.on_initial_sync();
    assert_eq!(startup.phase, StartupPhase::AwaitRoleAccounts);
    let registry = startup.on_role_accounts(id_with_tag(1), id_with_tag(2), id_with_tag(3));
    assert_eq!(startup.phase, StartupPhase::Ready);
    assert!(registry.is_ready());
    let faucet = registry.resolve(&AccountRef::ByRole(Role::Faucet)).unwrap();
    assert!(faucet.same_id(&id_with_tag(3)));
}

#[test]
fn failed_bootstrap_makes_every_submission_fail() {
    let mut queue = CommandQueue::new(8);
    queue
        .submit(Command {
            ticket: 1,
            op: Operation::GetAccountInfo,
        })
        .unwrap();

    let mut startup = WorkerStartup::begin();
    startup.on_initial_sync();
    // The role accounts could not be created: the worker terminates.
    startup.on_failure(&mut queue);
    assert_eq!(startup.phase, StartupPhase::Failed);

    // Everything submitted from now on fails with a transport error.
    assert_eq!(
        queue.submit(Command {
            ticket: 2,
            op: Operation::GetAccountInfo,
        }),
        Err(ServiceError::TransportUnavailable)
    );
}
