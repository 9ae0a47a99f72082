//! Command queue backpressure, ordering, and the reply path.

use miden_rust_service::errors::ServiceError;
use miden_rust_service::queue::{
    await_reply, Command, CommandQueue, Operation, DEFAULT_QUEUE_CAPACITY,
};

fn info_command(ticket: u64) -> Command {
    Command {
        ticket,
        op: Operation::GetAccountInfo,
    }
}

#[test]
fn submissions_beyond_capacity_fail_immediately() {
    let mut q = CommandQueue::new(2);
    assert!(q.submit(info_command(1)).is_ok());
    assert!(q.submit(info_command(2)).is_ok());
    assert_eq!(
        q.submit(info_command(3)),
        Err(ServiceError::TransportUnavailable)
    );
    assert_eq!(q.len(), 2);
}

#[test]
fn commands_leave_in_enqueue_order() {
    let mut q = CommandQueue::new(DEFAULT_QUEUE_CAPACITY);
    q.submit(info_command(10)).unwrap();
    q.submit(info_command(11)).unwrap();
    q.submit(info_command(12)).unwrap();
    assert_eq!(q.pop_next().unwrap().ticket, 10);
    assert_eq!(q.pop_next().unwrap().ticket, 11);
    assert_eq!(q.pop_next().unwrap().ticket, 12);
    assert!(q.pop_next().is_none());
}

#[test]
fn draining_a_full_queue_reopens_capacity() {
    let mut q = CommandQueue::new(1);
    q.submit(info_command(1)).unwrap();
    assert!(q.submit(info_command(2)).is_err());
    assert_eq!(q.pop_next().unwrap().ticket, 1);
    assert!(q.submit(info_command(2)).is_ok());
}

#[test]
fn closed_queue_rejects_all_submissions() {
    let mut q = CommandQueue::new(4);
    q.submit(info_command(1)).unwrap();
    q.close();
    assert_eq!(
        q.submit(info_command(2)),
        Err(ServiceError::TransportUnavailable)
    );
    assert_eq!(
        ServiceError::TransportUnavailable.message(),
        "client task unavailable"
    );
    // Commands accepted before the close are still drained in order.
    assert_eq!(q.pop_next().unwrap().ticket, 1);
}

#[test]
fn missing_reply_is_an_internal_communication_error() {
    let reply: Option<Result<u64, ServiceError>> = None;
    assert_eq!(
        await_reply(reply),
        Err(ServiceError::InternalCommunicationError)
    );
    assert_eq!(
        ServiceError::InternalCommunicationError.message(),
        "internal communication error"
    );
}

#[test]
fn arrived_reply_passes_through_unchanged() {
    assert_eq!(await_reply(Some(Ok(7u64))), Ok(7u64));
    assert_eq!(
        await_reply(Some(Err::<u64, ServiceError>(ServiceError::NetworkFailure))),
        Err(ServiceError::NetworkFailure)
    );
}
