use std::rc::Rc;

use async_ucx::bridge::{BridgeState, Step};
use async_ucx::endpoint::{
    accept_params, connect_addr_params, connect_params, CloseAction, Endpoint, ErrHandlingMode,
    PeerSource, Worker, UCP_EP_CLOSE_MODE_FLUSH,
};
use async_ucx::status::{poll_normal, poll_stream, Error, Progress, Submitted, UCS_INPROGRESS, UCS_OK};
use async_ucx::stream::{RecvStart, SendStart};

fn open_endpoint(handle: usize) -> Endpoint {
    let worker = Rc::new(Worker::new(11));
    match Endpoint::create(&worker, UCS_OK, handle) {
        Ok(ep) => ep,
        Err(e) => panic!("creation failed: {:?}", e),
    }
}

#[test]
fn creation_parameters() {
    let c = connect_params();
    assert_eq!(c.field_mask, 32 | 16 | 2);
    assert_eq!(c.flags, 1);
    assert_eq!(c.err_mode, ErrHandlingMode::Peer);
    assert_eq!(c.source, PeerSource::SockAddr);
    let a = connect_addr_params();
    assert_eq!(a.field_mask, 1 | 2);
    assert_eq!(a.err_mode, ErrHandlingMode::Peer);
    assert_eq!(a.source, PeerSource::RemoteAddress);
    let r = accept_params();
    assert_eq!(r.field_mask, 64);
    assert_eq!(r.source, PeerSource::ConnRequest);
}

#[test]
fn failed_creation_is_connection_error() {
    let worker = Rc::new(Worker::new(11));
    // All three protocols hand their native status to the same creation step.
    for (params, status) in [(connect_params(), -6), (connect_addr_params(), -7), (accept_params(), -8)] {
        match Endpoint::create(&worker, status, 99) {
            Err(e) => assert_eq!(e, Error::Connection(status)),
            Ok(_) => panic!("no endpoint on failure for {:?}", params.source),
        }
    }
    assert!(Endpoint::create(&worker, UCS_INPROGRESS, 99).is_err());
}

#[test]
fn created_endpoint_binds_worker() {
    let worker = Rc::new(Worker::new(11));
    let ep = match Endpoint::create(&worker, UCS_OK, 77) {
        Ok(ep) => ep,
        Err(_) => panic!("creation failed"),
    };
    assert_eq!(ep.handle(), 77);
    assert_eq!(ep.worker().handle, 11);
    assert!(ep.is_open());
    assert_eq!(Rc::strong_count(&worker), 2);
}

#[test]
fn flush_outcomes() {
    let ep = open_endpoint(3);
    assert!(matches!(ep.flush(Submitted::Done), Ok(None)));
    match ep.flush(Submitted::Pending(500)) {
        Ok(Some(mut h)) => {
            assert_eq!(h.ticket(), 500);
            assert_eq!(h.poll(poll_normal(UCS_INPROGRESS)), Step::Register);
            match h.recheck(poll_normal(UCS_OK)) {
                Step::Ready(done) => assert_eq!(ep.flush_finished(done), Ok(())),
                other => panic!("flush must resolve, got {:?}", other),
            }
            assert_eq!(h.release(), Some(500));
        }
        _ => panic!("pending flush must hand back a request"),
    }
    assert!(matches!(ep.flush(Submitted::Failed(-4)), Err(Error::Submission(-4))));
}

#[test]
fn flush_completing_with_error_fails() {
    let ep = open_endpoint(4);
    match ep.flush(Submitted::Pending(501)) {
        Ok(Some(mut h)) => {
            match h.poll(poll_normal(-16)) {
                Step::Ready(done) => {
                    assert_eq!(done, Err(-16));
                    assert_eq!(ep.flush_finished(done), Err(Error::Completion(-16)));
                }
                other => panic!("flush must resolve, got {:?}", other),
            }
            assert_eq!(h.release(), Some(501));
        }
        _ => panic!("pending flush must hand back a request"),
    }
}

#[test]
fn close_inline_needs_no_suspension() {
    let mut ep = open_endpoint(5);
    assert_eq!(ep.close_mode(), UCP_EP_CLOSE_MODE_FLUSH);
    let closing = ep.close(Submitted::Done);
    assert!(closing.is_finished());
    assert_eq!(closing.fault(), None);
    assert!(!ep.is_open());
    assert_eq!(ep.teardown(), None);
}

#[test]
fn close_with_outstanding_drains_then_frees_once() {
    let mut ep = open_endpoint(6);
    let mut closing = ep.close(Submitted::Pending(900));
    let mut yields = 0;
    let mut frees = Vec::new();
    let statuses = [UCS_INPROGRESS, UCS_INPROGRESS, UCS_OK];
    for s in statuses {
        assert!(!closing.is_finished());
        match closing.step(s) {
            CloseAction::Yield => yields += 1,
            CloseAction::Free(t) => frees.push(t),
        }
    }
    assert!(closing.is_finished());
    assert_eq!(yields, 2);
    assert_eq!(frees, vec![900]);
    assert_eq!(ep.teardown(), None);
}

#[test]
fn close_failure_is_swallowed() {
    let mut ep = open_endpoint(7);
    let closing = ep.close(Submitted::Failed(-25));
    assert!(closing.is_finished());
    assert_eq!(closing.fault(), Some(-25));
    assert!(!ep.is_open());
    assert_eq!(ep.teardown(), None);
}

#[test]
fn drop_without_close_releases_once() {
    let mut ep = open_endpoint(8);
    assert_eq!(ep.teardown(), Some(8));
    assert_eq!(ep.teardown(), None);
    assert!(!ep.is_open());
}

#[test]
fn send_inline_returns_full_length() {
    let ep = open_endpoint(9);
    let buf = [0u8; 12];
    assert!(matches!(ep.stream_send(&buf, Submitted::Done), SendStart::Sent(12)));
}

#[test]
fn send_pending_returns_length_after_callback() {
    let ep = open_endpoint(9);
    let buf = vec![7u8; 300];
    match ep.stream_send(&buf, Submitted::Pending(1234)) {
        SendStart::Wait(mut w) => {
            assert_eq!(w.ticket(), 1234);
            assert_eq!(w.poll(poll_normal(UCS_INPROGRESS)), Step::Register);
            assert_eq!(w.recheck(poll_normal(UCS_INPROGRESS)), Step::Suspend);
            assert_eq!(w.poll(poll_normal(UCS_OK)), Step::Ready(Ok(300)));
            assert_eq!(w.release(), Some(1234));
            assert_eq!(w.release(), None);
        }
        _ => panic!("pending send must hand back a request"),
    }
}

#[test]
fn send_completing_with_error_reports_no_length() {
    let ep = open_endpoint(9);
    let buf = vec![7u8; 40];
    match ep.stream_send(&buf, Submitted::Pending(1235)) {
        SendStart::Wait(mut w) => {
            assert_eq!(w.poll(poll_normal(UCS_INPROGRESS)), Step::Register);
            assert_eq!(w.recheck(poll_normal(-20)), Step::Ready(Err(-20)));
            assert_eq!(w.release(), Some(1235));
        }
        _ => panic!("pending send must hand back a request"),
    }
}

#[test]
fn recv_short_inline() {
    let ep = open_endpoint(10);
    assert!(matches!(ep.stream_recv(Submitted::Done, 5), RecvStart::Received(5)));
}

#[test]
fn recv_short_pending() {
    let ep = open_endpoint(10);
    match ep.stream_recv(Submitted::Pending(77), 0) {
        RecvStart::Wait(mut h) => {
            assert_eq!(h.poll(poll_stream(UCS_INPROGRESS, 0)), Step::Register);
            assert_eq!(h.recheck(poll_stream(UCS_OK, 6)), Step::Ready(6));
            assert_eq!(h.state(), BridgeState::Resolved);
            assert_eq!(h.release(), Some(77));
        }
        _ => panic!("pending receive must hand back a request"),
    }
}
