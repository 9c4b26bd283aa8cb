use future_bridge::adapter::{Adapter, BridgeError, Completion, Poll};
use future_bridge::descriptor::{ArgValue, TaskDescriptor, TypeTag, SLEEP_OP};
use future_bridge::handle::FutureHandle;
use future_bridge::slot::{CompletionSlot, Outcome};

fn sleep_handle(secs: i32) -> FutureHandle<(), ()> {
    let d = TaskDescriptor::sleep_descriptor();
    let args = vec![ArgValue::I32(secs)];
    match FutureHandle::begin(&d, &d, &args) {
        Ok(h) => h,
        Err(e) => panic!("begin failed: {:?}", e),
    }
}

fn text_descriptor() -> TaskDescriptor {
    TaskDescriptor { op: 9, args: vec![TypeTag::Text, TypeTag::U64], success: TypeTag::Text, error: TypeTag::Text }
}

#[test]
fn sleep_zero_needs_one_tick() {
    let mut h = sleep_handle(0);
    assert!(matches!(h.poll(1), Ok(Poll::Pending)));
    assert_eq!(h.complete(Ok(())), Completion::Accepted(Some(1)));
    assert!(matches!(h.poll(2), Ok(Poll::Ready(Ok(())))));
}

#[test]
fn mismatched_success_type_is_invalid_contract() {
    let d = TaskDescriptor::sleep_descriptor();
    let mut declared = TaskDescriptor::sleep_descriptor();
    declared.success = TypeTag::I32;
    let args = vec![ArgValue::I32(1)];
    let r: Result<FutureHandle<(), ()>, BridgeError> = FutureHandle::begin(&d, &declared, &args);
    assert!(matches!(r, Err(BridgeError::InvalidContract)));
}

#[test]
fn mismatched_arguments_are_invalid_contract() {
    let d = TaskDescriptor::sleep_descriptor();
    let wrong_shape = vec![ArgValue::U64(1)];
    let too_many = vec![ArgValue::I32(1), ArgValue::I32(2)];
    let none: Vec<ArgValue> = Vec::new();
    assert!(matches!(Adapter::<(), ()>::begin(&d, &d, &wrong_shape), Err(BridgeError::InvalidContract)));
    assert!(matches!(Adapter::<(), ()>::begin(&d, &d, &too_many), Err(BridgeError::InvalidContract)));
    assert!(matches!(Adapter::<(), ()>::begin(&d, &d, &none), Err(BridgeError::InvalidContract)));
}

#[test]
fn mismatched_op_or_error_type_is_invalid_contract() {
    let d = TaskDescriptor::sleep_descriptor();
    let args = vec![ArgValue::I32(1)];
    let mut other_op = TaskDescriptor::sleep_descriptor();
    other_op.op = SLEEP_OP + 1;
    let mut other_err = TaskDescriptor::sleep_descriptor();
    other_err.error = TypeTag::Text;
    assert!(matches!(Adapter::<(), ()>::begin(&d, &other_op, &args), Err(BridgeError::InvalidContract)));
    assert!(matches!(Adapter::<(), ()>::begin(&d, &other_err, &args), Err(BridgeError::InvalidContract)));
}

#[test]
fn several_arguments_fit() {
    let d = text_descriptor();
    let args = vec![ArgValue::Text(String::from("x")), ArgValue::U64(3)];
    let swapped = vec![ArgValue::U64(3), ArgValue::Text(String::from("x"))];
    assert!(d.accepts_args(&args));
    assert!(!d.accepts_args(&swapped));
    assert!(d.same_signature(&text_descriptor()));
    assert!(!d.same_signature(&TaskDescriptor::sleep_descriptor()));
    assert!(Adapter::<String, String>::begin(&d, &d, &args).is_ok());
}

#[test]
fn sleep_descriptor_shape() {
    let d = TaskDescriptor::sleep_descriptor();
    assert_eq!(d.op, SLEEP_OP);
    assert_eq!(d.args, vec![TypeTag::I32]);
    assert_eq!(d.success, TypeTag::Void);
    assert_eq!(d.error, TypeTag::Never);
}

#[test]
fn second_poll_of_resolved_adapter_is_already_consumed() {
    let d = text_descriptor();
    let args = vec![ArgValue::Text(String::from("a")), ArgValue::U64(0)];
    let mut a: Adapter<String, String> = Adapter::begin(&d, &d, &args).unwrap();
    assert_eq!(a.complete(Ok(String::from("done"))), Completion::Accepted(None));
    match a.poll(1) {
        Ok(Poll::Ready(Ok(v))) => assert_eq!(v, "done"),
        _ => panic!("first poll must hand out the value"),
    }
    assert!(matches!(a.poll(2), Err(BridgeError::AlreadyConsumed)));
    assert!(matches!(a.poll(3), Err(BridgeError::AlreadyConsumed)));
}

#[test]
fn second_poll_of_handle_is_double_await() {
    let mut h = sleep_handle(1);
    h.complete(Ok(()));
    assert!(matches!(h.poll(1), Ok(Poll::Ready(Ok(())))));
    assert!(matches!(h.poll(1), Err(BridgeError::DoubleAwait)));
}

#[test]
fn producer_failure_is_delivered_once() {
    let d = text_descriptor();
    let args = vec![ArgValue::Text(String::from("a")), ArgValue::U64(0)];
    let mut a: Adapter<String, String> = Adapter::begin(&d, &d, &args).unwrap();
    assert!(matches!(a.poll(4), Ok(Poll::Pending)));
    assert_eq!(a.complete(Err(String::from("boom"))), Completion::Accepted(Some(4)));
    match a.poll(5) {
        Ok(Poll::Ready(Err(e))) => assert_eq!(e, "boom"),
        _ => panic!("the producer's error must be delivered"),
    }
    assert!(matches!(a.poll(6), Err(BridgeError::AlreadyConsumed)));
}

#[test]
fn later_writes_never_overwrite_the_first() {
    let d = text_descriptor();
    let args = vec![ArgValue::Text(String::from("a")), ArgValue::U64(0)];
    let mut a: Adapter<String, String> = Adapter::begin(&d, &d, &args).unwrap();
    assert_eq!(a.complete(Ok(String::from("first"))), Completion::Accepted(None));
    assert_eq!(a.complete(Ok(String::from("second"))), Completion::Rejected);
    assert_eq!(a.complete(Err(String::from("late"))), Completion::Rejected);
    assert_eq!(a.abort(), Completion::Rejected);
    match a.poll(1) {
        Ok(Poll::Ready(Ok(v))) => assert_eq!(v, "first"),
        _ => panic!("the first result must win"),
    }
}

#[test]
fn slot_is_written_once_and_taken_once() {
    let mut s: CompletionSlot<u64, u64> = CompletionSlot::new();
    assert!(s.is_pending());
    assert!(s.write(Outcome::Resolved(7)));
    assert!(!s.is_pending());
    assert!(!s.write(Outcome::Failed(8)));
    assert!(!s.write(Outcome::Aborted));
    assert!(matches!(s.take(), Outcome::Resolved(7)));
    assert!(s.is_taken());
    assert!(!s.write(Outcome::Resolved(9)));
}

#[test]
fn cancel_before_completion_blocks_writes() {
    let mut a: Adapter<u64, u64> = Adapter::begin(&TaskDescriptor::sleep_descriptor(), &TaskDescriptor::sleep_descriptor(), &vec![ArgValue::I32(5)]).unwrap();
    assert!(matches!(a.poll(3), Ok(Poll::Pending)));
    assert!(a.cancel());
    assert!(!a.cancel());
    assert_eq!(a.complete(Ok(1)), Completion::Rejected);
    assert_eq!(a.abort(), Completion::Rejected);
    assert!(!a.is_settled());
    assert!(matches!(a.poll(3), Err(BridgeError::CancelledBeforeCompletion)));
}

#[test]
fn cancel_after_completion_keeps_the_result() {
    let mut a: Adapter<u64, u64> = Adapter::begin(&TaskDescriptor::sleep_descriptor(), &TaskDescriptor::sleep_descriptor(), &vec![ArgValue::I32(5)]).unwrap();
    assert_eq!(a.complete(Ok(11)), Completion::Accepted(None));
    assert!(!a.cancel());
    assert!(a.is_settled());
    assert!(matches!(a.poll(1), Ok(Poll::Ready(Ok(11)))));
}

#[test]
fn pending_poll_wake_is_scheduled_exactly_once() {
    let mut h = sleep_handle(2);
    assert!(matches!(h.poll(10), Ok(Poll::Pending)));
    assert!(matches!(h.poll(11), Ok(Poll::Pending)));
    assert_eq!(h.complete(Ok(())), Completion::Accepted(Some(11)));
    assert_eq!(h.complete(Ok(())), Completion::Rejected);
    assert!(matches!(h.poll(12), Ok(Poll::Ready(Ok(())))));
}

#[test]
fn release_before_completion_cancels_once() {
    let mut h = sleep_handle(3);
    assert!(h.release());
    assert!(!h.release());
    assert_eq!(h.complete(Ok(())), Completion::Rejected);
    assert!(matches!(h.poll(1), Err(BridgeError::CancelledBeforeCompletion)));
}

#[test]
fn release_after_completion_does_not_cancel() {
    let mut h = sleep_handle(3);
    h.complete(Ok(()));
    assert!(!h.release());
    assert!(matches!(h.poll(1), Ok(Poll::Ready(Ok(())))));
}

#[test]
fn producer_abort_is_an_explicit_terminal_state() {
    let mut h = sleep_handle(1);
    assert!(matches!(h.poll(2), Ok(Poll::Pending)));
    assert_eq!(h.abort(), Completion::Accepted(Some(2)));
    assert_eq!(h.complete(Ok(())), Completion::Rejected);
    assert!(matches!(h.poll(3), Err(BridgeError::ProducerAborted)));
    assert!(matches!(h.poll(3), Err(BridgeError::DoubleAwait)));
}

#[test]
fn argument_tags() {
    assert_eq!(ArgValue::Bool(true).tag(), TypeTag::Bool);
    assert_eq!(ArgValue::I32(-1).tag(), TypeTag::I32);
    assert_eq!(ArgValue::I64(-1).tag(), TypeTag::I64);
    assert_eq!(ArgValue::U64(1).tag(), TypeTag::U64);
    assert_eq!(ArgValue::Text(String::new()).tag(), TypeTag::Text);
    assert_eq!(ArgValue::Bytes(vec![1u8]).tag(), TypeTag::Bytes);
}
