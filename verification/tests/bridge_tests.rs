use mssf_core::bridge::{BridgeOperation, NativeError};
use mssf_core::channel::ResultChannel;

const E_FAIL: i32 = -2147467259;

#[test]
fn channel_hands_over_the_sent_value_once() {
    let mut chan: ResultChannel<u32> = ResultChannel::new();
    assert_eq!(chan.try_recv(), None);
    chan.send(17);
    assert_eq!(chan.try_recv(), Some(17));
}

#[test]
fn channel_blocking_receive_returns_the_sent_value() {
    let mut chan: ResultChannel<String> = ResultChannel::new();
    chan.send(String::from("done"));
    assert_eq!(chan.recv(), String::from("done"));
}

#[test]
fn immediate_failure_resolves_to_that_failure_without_blocking() {
    let mut op: BridgeOperation<u32> = BridgeOperation::start(Err(NativeError { code: E_FAIL }));
    // The awaitable is already resolved: the first poll returns the failure
    // rather than suspending, and no callback ever ran.
    assert_eq!(op.poll(), Some(Err(NativeError { code: E_FAIL })));
}

#[test]
fn accepted_operation_completing_before_the_consumer_awaits() {
    // Simulates a native call that completes synchronously: the callback
    // fires (on the caller's own thread) before the consumer first awaits.
    let mut op: BridgeOperation<u32> = BridgeOperation::start(Ok(()));
    op.complete(Ok(42));
    assert_eq!(op.take(), Ok(42));
}

#[test]
fn accepted_operation_completing_after_the_consumer_awaits() {
    // Simulates a native call that completes on a background thread: the
    // consumer suspends first (poll sees nothing), then the callback fires.
    let mut op: BridgeOperation<u64> = BridgeOperation::start(Ok(()));
    assert_eq!(op.poll(), None);
    assert_eq!(op.poll(), None);
    op.complete(Ok(7));
    assert_eq!(op.poll(), Some(Ok(7)));
}

#[test]
fn asynchronous_failure_travels_the_same_path_as_success() {
    let mut op: BridgeOperation<u32> = BridgeOperation::start(Ok(()));
    op.complete(Err(NativeError { code: E_FAIL }));
    assert_eq!(op.take(), Err(NativeError { code: E_FAIL }));
}
