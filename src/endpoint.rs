//! Connection endpoints: creation from one of three protocols, flush, the
//! draining close, and the abortive release of an endpoint dropped open.
use std::rc::Rc;
use vstd::prelude::*;
use crate::bridge::{after_poll, fresh, idle_rounds, lemma_idle_rounds, RequestHandle, Step};
use crate::status::{spec_poll_normal, Error, Submitted, UCS_INPROGRESS, UCS_OK};

verus! {

/// Parameter field: the peer is given by a resolved worker address.
pub const UCP_EP_PARAM_FIELD_REMOTE_ADDRESS: u64 = 1;

/// Parameter field: the error handling mode is set.
pub const UCP_EP_PARAM_FIELD_ERR_HANDLING_MODE: u64 = 2;

/// Parameter field: the peer is given by a socket address.
pub const UCP_EP_PARAM_FIELD_SOCK_ADDR: u64 = 16;

/// Parameter field: endpoint flags are set.
pub const UCP_EP_PARAM_FIELD_FLAGS: u64 = 32;

/// Parameter field: the endpoint accepts an inbound connection request.
pub const UCP_EP_PARAM_FIELD_CONN_REQUEST: u64 = 64;

/// Endpoint flag: connect in client-server mode.
pub const UCP_EP_PARAMS_FLAGS_CLIENT_SERVER: u32 = 1;

/// Close mode that drains outstanding operations before closing.
pub const UCP_EP_CLOSE_MODE_FLUSH: u32 = 1;

/// The progress engine that endpoints are created on, shared by all of them.
pub struct Worker {
    pub handle: usize,
}

impl Worker {
    pub fn new(handle: usize) -> (r: Worker)
        ensures
            r.handle == handle,
    {
        Worker { handle }
    }
}

/// How the peer of a new endpoint is named.
#[derive(Debug, Clone, Copy, PartialEq, Eq, Structural)]
pub enum PeerSource {
    /// A network socket address.
    SockAddr,
    /// A worker address resolved out of band.
    RemoteAddress,
    /// An inbound connection request to accept.
    ConnRequest,
}

/// How the engine treats a failing peer.
#[derive(Debug, Clone, Copy, PartialEq, Eq, Structural)]
pub enum ErrHandlingMode {
    /// Left to the engine's default.
    Unset,
    /// A peer fault is reported on the endpoint instead of ending the process.
    Peer,
}

/// The creation parameters of an endpoint, apart from the address values,
/// which the caller supplies for the field that `source` names.
#[derive(Debug, Clone, Copy, PartialEq, Eq, Structural)]
pub struct EndpointParams {
    pub field_mask: u64,
    pub flags: u32,
    pub err_mode: ErrHandlingMode,
    pub source: PeerSource,
}

/// Active connect to a socket address: client-server mode with peer error
/// handling.
pub fn connect_params() -> (r: EndpointParams)
    ensures
        r.field_mask == UCP_EP_PARAM_FIELD_FLAGS | UCP_EP_PARAM_FIELD_SOCK_ADDR
            | UCP_EP_PARAM_FIELD_ERR_HANDLING_MODE,
        r.flags == UCP_EP_PARAMS_FLAGS_CLIENT_SERVER,
        r.err_mode == ErrHandlingMode::Peer,
        r.source == PeerSource::SockAddr,
{
    EndpointParams {
        field_mask: UCP_EP_PARAM_FIELD_FLAGS | UCP_EP_PARAM_FIELD_SOCK_ADDR
            | UCP_EP_PARAM_FIELD_ERR_HANDLING_MODE,
        flags: UCP_EP_PARAMS_FLAGS_CLIENT_SERVER,
        err_mode: ErrHandlingMode::Peer,
        source: PeerSource::SockAddr,
    }
}

/// Active connect to a resolved worker address, with peer error handling.
pub fn connect_addr_params() -> (r: EndpointParams)
    ensures
        r.field_mask == UCP_EP_PARAM_FIELD_REMOTE_ADDRESS | UCP_EP_PARAM_FIELD_ERR_HANDLING_MODE,
        r.flags == 0,
        r.err_mode == ErrHandlingMode::Peer,
        r.source == PeerSource::RemoteAddress,
{
    EndpointParams {
        field_mask: UCP_EP_PARAM_FIELD_REMOTE_ADDRESS | UCP_EP_PARAM_FIELD_ERR_HANDLING_MODE,
        flags: 0,
        err_mode: ErrHandlingMode::Peer,
        source: PeerSource::RemoteAddress,
    }
}

/// Passive accept of an inbound connection request.
pub fn accept_params() -> (r: EndpointParams)
    ensures
        r.field_mask == UCP_EP_PARAM_FIELD_CONN_REQUEST,
        r.flags == 0,
        r.err_mode == ErrHandlingMode::Unset,
        r.source == PeerSource::ConnRequest,
{
    EndpointParams {
        field_mask: UCP_EP_PARAM_FIELD_CONN_REQUEST,
        flags: 0,
        err_mode: ErrHandlingMode::Unset,
        source: PeerSource::ConnRequest,
    }
}

/// The abstract state of an endpoint.
pub struct EndpointView {
    pub handle: usize,
    pub worker: usize,
    /// The native handle is still valid and owned by this endpoint.
    pub open: bool,
}

/// One connection, bound to the worker it was created on.
pub struct Endpoint {
    handle: usize,
    worker: Rc<Worker>,
    open: bool,
}

impl View for Endpoint {
    type V = EndpointView;

    closed spec fn view(&self) -> EndpointView {
        EndpointView { handle: self.handle, worker: self.worker.handle, open: self.open }
    }
}

/// The error that creation reports for a status, if any.
pub open spec fn creation_error(status: i8) -> Option<Error> {
    if status == UCS_OK {
        None
    } else {
        Some(Error::Connection(status))
    }
}

/// The result of a flush submission: done at once, a request to bridge, or a
/// synchronous error.
pub open spec fn flush_outcome(s: Submitted) -> Result<Option<usize>, Error> {
    match s {
        Submitted::Done => Ok(None),
        Submitted::Pending(t) => Ok(Some(t)),
        Submitted::Failed(e) => Err(Error::Submission(e)),
    }
}

/// Dropping an endpoint: an open one asks for one abortive release of its
/// handle and becomes closed; a closed one asks for nothing.
pub open spec fn after_teardown(v: EndpointView) -> (EndpointView, Option<usize>) {
    if v.open {
        (EndpointView { open: false, ..v }, Some(v.handle))
    } else {
        (v, None)
    }
}

/// Whether a close submission left requests to drain, and what it reported.
pub struct ClosingView {
    pub ticket: usize,
    pub draining: bool,
    /// A close refused synchronously; kept for diagnostics only.
    pub fault: Option<i8>,
    /// How many times the close request was freed.
    pub frees: nat,
    /// How many times the closing task yielded.
    pub yields: nat,
}

/// What the task that closes an endpoint does next.
#[derive(Debug, Clone, Copy, PartialEq, Eq, Structural)]
pub enum CloseAction {
    /// The close request is still running: yield, then check it again.
    Yield,
    /// The close request has finished: free it; the endpoint is closed.
    Free(usize),
}

/// A close in progress.
pub struct Closing {
    ticket: usize,
    draining: bool,
    fault: Option<i8>,
    frees: Ghost<nat>,
    yields: Ghost<nat>,
}

impl View for Closing {
    type V = ClosingView;

    closed spec fn view(&self) -> ClosingView {
        ClosingView {
            ticket: self.ticket,
            draining: self.draining,
            fault: self.fault,
            frees: self.frees@,
            yields: self.yields@,
        }
    }
}

/// The state of a close right after its submission.
pub open spec fn close_start(s: Submitted) -> ClosingView {
    match s {
        Submitted::Done => ClosingView { ticket: 0, draining: false, fault: None, frees: 0, yields: 0 },
        Submitted::Pending(t) => ClosingView {
            ticket: t,
            draining: true,
            fault: None,
            frees: 0,
            yields: 0,
        },
        Submitted::Failed(e) => ClosingView {
            ticket: 0,
            draining: false,
            fault: Some(e),
            frees: 0,
            yields: 0,
        },
    }
}

/// One check of a draining close request: still in progress yields, anything
/// else frees the request and ends the close.
pub open spec fn close_step(v: ClosingView, status: i8) -> (ClosingView, CloseAction) {
    if status == UCS_INPROGRESS {
        (ClosingView { yields: v.yields + 1, ..v }, CloseAction::Yield)
    } else {
        (ClosingView { draining: false, frees: v.frees + 1, ..v }, CloseAction::Free(v.ticket))
    }
}

/// `n` checks of a draining close that found its request still in progress.
pub open spec fn drain(v: ClosingView, n: nat) -> ClosingView
    decreases n,
{
    if n == 0 {
        v
    } else {
        close_step(drain(v, (n - 1) as nat), UCS_INPROGRESS).0
    }
}

/// A close that the engine finishes inline, with nothing outstanding, needs
/// no check, no yield and no request to free.
pub proof fn lemma_close_without_outstanding()
    ensures
        !close_start(Submitted::Done).draining,
        close_start(Submitted::Done).yields == 0,
        close_start(Submitted::Done).frees == 0,
        close_start(Submitted::Done).fault is None,
{
}

/// A close that must drain yields once per check that finds its request in
/// progress, and once the request is no longer in progress frees it exactly
/// once and is finished, so no further check or free can follow.
pub proof fn lemma_close_drains_then_frees_once(ticket: usize, n: nat, status: i8)
    requires
        status != UCS_INPROGRESS,
    ensures
        drain(close_start(Submitted::Pending(ticket)), n).draining,
        drain(close_start(Submitted::Pending(ticket)), n).yields == n,
        drain(close_start(Submitted::Pending(ticket)), n).frees == 0,
        ({
            let (w, a) = close_step(drain(close_start(Submitted::Pending(ticket)), n), status);
            &&& a == CloseAction::Free(ticket)
            &&& !w.draining
            &&& w.frees == 1
            &&& w.yields == n
        }),
    decreases n,
{
    if n > 0 {
        lemma_close_drains_then_frees_once(ticket, (n - 1) as nat, status);
    }
}

/// An endpoint dropped open asks for exactly one abortive release of its own
/// handle, and for nothing else; dropped again, or after a close, it asks
/// for nothing.
pub proof fn lemma_drop_releases_once(v: EndpointView)
    requires
        v.open,
    ensures
        ({
            let (v1, r1) = after_teardown(v);
            let (v2, r2) = after_teardown(v1);
            &&& r1 == Some(v.handle)
            &&& !v1.open
            &&& r2 == None::<usize>
            &&& v2 == v1
        }),
        after_teardown(EndpointView { open: false, ..v }).1 == None::<usize>,
{
}

/// The result of a flush once its request has finished: an error status
/// reaches the caller as a completion error, since a flush either drains
/// everything or fails.
pub open spec fn flush_completion(r: Result<(), i8>) -> Result<(), Error> {
    match r {
        Ok(()) => Ok(()),
        Err(s) => Err(Error::Completion(s)),
    }
}

/// A pending flush resolves only once its request is no longer in progress,
/// and then to success exactly when the request finished with `UCS_OK`;
/// any other final status is the flush's error.
pub proof fn lemma_flush_succeeds_only_on_ok(ticket: usize, n: nat, status: i8)
    ensures
        ({
            let (v, s) = after_poll(idle_rounds(fresh(ticket), n), spec_poll_normal(status));
            &&& (s is Ready <==> status != UCS_INPROGRESS)
            &&& (s matches Step::Ready(x) ==> (flush_completion(x) is Ok <==> status == UCS_OK))
            &&& (status != UCS_OK ==> (s matches Step::Ready(x) ==> flush_completion(x)
                == Err::<(), Error>(Error::Completion(status))))
        }),
{
    lemma_idle_rounds(ticket, n);
}

impl Endpoint {
    /// Wraps the outcome of a creation call: a non-success status is a
    /// connection error and yields no endpoint; success binds the new handle
    /// to the worker.
    pub fn create(worker: &Rc<Worker>, status: i8, handle: usize) -> (r: Result<Endpoint, Error>)
        ensures
            r is Ok <==> status == UCS_OK,
            r matches Err(e) ==> Some(e) == creation_error(status),
            r matches Ok(ep) ==> ep@ == (EndpointView {
                handle,
                worker: worker.handle,
                open: true,
            }),
    {
        if status != UCS_OK {
            Err(Error::Connection(status))
        } else {
            Ok(Endpoint { handle, worker: Rc::clone(worker), open: true })
        }
    }

    /// The worker this endpoint was created on.
    pub fn worker(&self) -> (r: &Rc<Worker>)
        ensures
            r.handle == self@.worker,
    {
        &self.worker
    }

    /// The native handle, for submissions on this endpoint.
    pub fn handle(&self) -> (r: usize)
        ensures
            r == self@.handle,
    {
        self.handle
    }

    pub fn is_open(&self) -> (r: bool)
        ensures
            r == self@.open,
    {
        self.open
    }

    /// Takes the outcome of a flush submission: done at once, a pending
    /// request to wait on with the status-only check, or a submission error.
    pub fn flush(&self, submitted: Submitted) -> (r: Result<Option<RequestHandle>, Error>)
        requires
            self@.open,
        ensures
            r is Ok <==> flush_outcome(submitted) is Ok,
            r matches Err(e) ==> flush_outcome(submitted) == Err::<Option<usize>, Error>(e),
            r matches Ok(None) ==> flush_outcome(submitted) == Ok::<Option<usize>, Error>(None),
            r matches Ok(Some(h)) ==> submitted matches Submitted::Pending(t) && h@ == fresh(t),
    {
        match submitted {
            Submitted::Done => Ok(None),
            Submitted::Pending(t) => Ok(Some(RequestHandle::new(t))),
            Submitted::Failed(e) => Err(Error::Submission(e)),
        }
    }

    /// The caller's result of a pending flush, from the final answer of its
    /// status-only check.
    pub fn flush_finished(&self, done: Result<(), i8>) -> (r: Result<(), Error>)
        requires
            self@.open,
        ensures
            r == flush_completion(done),
    {
        match done {
            Ok(()) => Ok(()),
            Err(s) => Err(Error::Completion(s)),
        }
    }

    /// The mode a close is submitted in: drain outstanding operations first.
    pub fn close_mode(&self) -> (r: u32)
        ensures
            r == UCP_EP_CLOSE_MODE_FLUSH,
    {
        UCP_EP_CLOSE_MODE_FLUSH
    }

    /// Takes the outcome of a close submission. The endpoint is closed from
    /// here on whatever the outcome: the engine owns the teardown, so a later
    /// drop releases nothing. A synchronous failure is kept as a diagnostic,
    /// not returned as an error.
    pub fn close(&mut self, submitted: Submitted) -> (r: Closing)
        requires
            old(self)@.open,
        ensures
            final(self)@ == (EndpointView { open: false, ..old(self)@ }),
            r@ == close_start(submitted),
    {
        self.open = false;
        match submitted {
            Submitted::Done => Closing {
                ticket: 0,
                draining: false,
                fault: None,
                frees: Ghost(0),
                yields: Ghost(0),
            },
            Submitted::Pending(t) => Closing {
                ticket: t,
                draining: true,
                fault: None,
                frees: Ghost(0),
                yields: Ghost(0),
            },
            Submitted::Failed(e) => Closing {
                ticket: 0,
                draining: false,
                fault: Some(e),
                frees: Ghost(0),
                yields: Ghost(0),
            },
        }
    }

    /// Called when the endpoint is dropped: an open endpoint hands out its
    /// handle for one abortive release, without flushing; a closed one hands
    /// out nothing.
    pub fn teardown(&mut self) -> (r: Option<usize>)
        ensures
            (final(self)@, r) == after_teardown(old(self)@),
    {
        if self.open {
            self.open = false;
            Some(self.handle)
        } else {
            None
        }
    }
}

impl Closing {
    /// The close needs no further checks.
    pub fn is_finished(&self) -> (r: bool)
        ensures
            r == !self@.draining,
    {
        !self.draining
    }

    /// The status a refused close reported, if it was refused.
    pub fn fault(&self) -> (r: Option<i8>)
        ensures
            r == self@.fault,
    {
        self.fault
    }

    /// One check of the close request's status while it drains.
    pub fn step(&mut self, status: i8) -> (r: CloseAction)
        requires
            old(self)@.draining,
        ensures
            (final(self)@, r) == close_step(old(self)@, status),
    {
        if status == UCS_INPROGRESS {
            self.yields = Ghost(self.yields@ + 1);
            CloseAction::Yield
        } else {
            self.draining = false;
            self.frees = Ghost(self.frees@ + 1);
            CloseAction::Free(self.ticket)
        }
    }
}

} // verus!
