use async_ucx::bridge::{BridgeState, RequestHandle, Step};
use async_ucx::status::{
    decode_status_ptr, poll_normal, poll_stream, Progress, Submitted, UCS_INPROGRESS, UCS_OK,
};

#[test]
fn decode_null_is_inline_success() {
    assert_eq!(decode_status_ptr(0), Submitted::Done);
}

#[test]
fn decode_request_pointer_is_pending() {
    assert_eq!(decode_status_ptr(0x7f00_1000), Submitted::Pending(0x7f00_1000));
    assert_eq!(decode_status_ptr(1), Submitted::Pending(1));
    assert_eq!(decode_status_ptr(usize::MAX - 100), Submitted::Pending(usize::MAX - 100));
}

#[test]
fn decode_error_pointer_is_failure() {
    assert_eq!(decode_status_ptr(usize::MAX), Submitted::Failed(-1));
    assert_eq!(decode_status_ptr(usize::MAX - 2), Submitted::Failed(-3));
    assert_eq!(decode_status_ptr(usize::MAX - 99), Submitted::Failed(-100));
}

#[test]
fn status_only_check() {
    assert_eq!(poll_normal(UCS_INPROGRESS), Progress::InProgress);
    assert_eq!(poll_normal(UCS_OK), Progress::Complete(Ok(())));
    assert_eq!(poll_normal(-16), Progress::Complete(Err(-16)));
}

#[test]
fn sized_check() {
    assert_eq!(poll_stream(UCS_INPROGRESS, 9), Progress::InProgress);
    assert_eq!(poll_stream(UCS_OK, 9), Progress::Complete(9));
}

#[test]
fn immediate_completion_registers_no_waker() {
    let mut h = RequestHandle::new(40);
    assert_eq!(h.poll(Progress::Complete(5u32)), Step::Ready(5));
    assert_eq!(h.state(), BridgeState::Resolved);
    assert_eq!(h.release(), Some(40));
}

#[test]
fn completion_after_three_progress_calls_resumes_once() {
    let mut h = RequestHandle::new(41);
    let mut registrations = 0;
    let mut ready = 0;
    for round in 0..4 {
        let first = if round == 3 { Progress::Complete(()) } else { Progress::InProgress };
        match h.poll(first) {
            Step::Ready(()) => ready += 1,
            Step::Register => {
                registrations += 1;
                assert_eq!(h.recheck(Progress::<()>::InProgress), Step::Suspend);
                assert_eq!(h.state(), BridgeState::Pending);
            }
            Step::Suspend => panic!("poll never suspends before registering"),
        }
    }
    assert_eq!(registrations, 3);
    assert_eq!(ready, 1);
    assert_eq!(h.state(), BridgeState::Resolved);
}

#[test]
fn completion_during_registration_is_not_lost() {
    let mut h = RequestHandle::new(42);
    assert_eq!(h.poll(Progress::<usize>::InProgress), Step::Register);
    assert_eq!(h.recheck(Progress::Complete(17usize)), Step::Ready(17));
    assert_eq!(h.state(), BridgeState::Resolved);
}

#[test]
fn release_after_resolution_once() {
    let mut h = RequestHandle::new(43);
    assert_eq!(h.poll(Progress::Complete(())), Step::Ready(()));
    assert_eq!(h.release(), Some(43));
    assert_eq!(h.release(), None);
    assert!(h.is_released());
    assert_eq!(h.state(), BridgeState::Resolved);
}

#[test]
fn release_on_early_drop_once() {
    let mut h = RequestHandle::new(44);
    assert_eq!(h.poll(Progress::<()>::InProgress), Step::Register);
    assert_eq!(h.recheck(Progress::<()>::InProgress), Step::Suspend);
    assert_eq!(h.release(), Some(44));
    assert_eq!(h.state(), BridgeState::Cancelled);
    assert_eq!(h.release(), None);
}

#[test]
fn release_before_any_poll() {
    let mut h = RequestHandle::new(45);
    assert_eq!(h.ticket(), 45);
    assert_eq!(h.state(), BridgeState::Submitted);
    assert_eq!(h.release(), Some(45));
    assert_eq!(h.state(), BridgeState::Cancelled);
}
