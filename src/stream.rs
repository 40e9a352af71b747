//! Stream transfers: a send hands back the whole buffer length once the
//! engine is done with it; a receive hands back the length the engine
//! reported, which may be short of the buffer.
//!
//! A synchronous submission failure is fatal for the call that made it: the
//! caller stops before handing such an outcome here, so neither primitive
//! admits it.
use vstd::prelude::*;
use crate::bridge::{after_poll, after_recheck, after_release, fresh, idle_rounds, lemma_idle_rounds, BridgeView, RequestHandle, Step};
use crate::endpoint::Endpoint;
use crate::status::{spec_poll_normal, spec_poll_stream, Progress, Submitted, UCS_INPROGRESS, UCS_OK};

verus! {

/// A send's bridge step: successful completion of the request means the
/// whole buffer was sent; an error status is passed on, never a length.
pub open spec fn sent_step(s: Step<Result<(), i8>>, len: usize) -> Step<Result<usize, i8>> {
    match s {
        Step::Ready(Ok(())) => Step::Ready(Ok(len)),
        Step::Ready(Err(e)) => Step::Ready(Err(e)),
        Step::Register => Step::Register,
        Step::Suspend => Step::Suspend,
    }
}

fn sent(s: Step<Result<(), i8>>, len: usize) -> (r: Step<Result<usize, i8>>)
    ensures
        r == sent_step(s, len),
{
    match s {
        Step::Ready(Ok(())) => Step::Ready(Ok(len)),
        Step::Ready(Err(e)) => Step::Ready(Err(e)),
        Step::Register => Step::Register,
        Step::Suspend => Step::Suspend,
    }
}

/// The abstract state of a pending send.
pub struct SendView {
    pub request: BridgeView,
    pub len: usize,
}

/// A send whose request is still running.
pub struct SendRequest {
    request: RequestHandle,
    len: usize,
}

impl View for SendRequest {
    type V = SendView;

    closed spec fn view(&self) -> SendView {
        SendView { request: self.request@, len: self.len }
    }
}

/// How a send began.
pub enum SendStart {
    /// The engine took the whole buffer inline.
    Sent(usize),
    /// The send runs behind a request; wait on it with the status-only check.
    Wait(SendRequest),
}

/// How a receive began.
pub enum RecvStart {
    /// The engine received this many bytes inline.
    Received(usize),
    /// The receive runs behind a request; wait on it with the sized check.
    Wait(RequestHandle),
}

/// A send of `len` bytes that the engine completes successfully after `n`
/// idle resumes returns `len`, and only then, from a completion that carries
/// no length; one whose request ends with an error status returns that
/// status, not a length.
pub proof fn lemma_send_returns_full_length(ticket: usize, n: nat, len: usize, status: i8)
    requires
        status != UCS_INPROGRESS,
        status != UCS_OK,
    ensures
        sent_step(after_poll(idle_rounds(fresh(ticket), n), spec_poll_normal(UCS_OK)).1, len)
            == Step::Ready(Ok::<usize, i8>(len)),
        sent_step(after_poll(idle_rounds(fresh(ticket), n), spec_poll_normal(UCS_INPROGRESS)).1, len)
            == Step::<Result<usize, i8>>::Register,
        sent_step(after_poll(idle_rounds(fresh(ticket), n), spec_poll_normal(status)).1, len)
            == Step::Ready(Err::<usize, i8>(status)),
{
    lemma_idle_rounds(ticket, n);
}

/// A receive that the engine completes with `k` bytes, inline or after `n`
/// idle resumes, returns exactly `k`, short of the buffer or not, and no
/// error.
pub proof fn lemma_short_receive_returns_length(ticket: usize, n: nat, status: i8, k: usize)
    requires
        status != UCS_INPROGRESS,
    ensures
        after_poll(idle_rounds(fresh(ticket), n), spec_poll_stream(status, k)).1 == Step::Ready(k),
        after_recheck(
            after_poll(idle_rounds(fresh(ticket), n), Progress::<usize>::InProgress).0,
            spec_poll_stream(status, k),
        ).1 == Step::Ready(k),
{
    lemma_idle_rounds(ticket, n);
}

impl SendRequest {
    pub fn ticket(&self) -> (r: usize)
        ensures
            r == self@.request.ticket,
    {
        self.request.ticket()
    }

    pub fn poll(&mut self, p: Progress<Result<(), i8>>) -> (r: Step<Result<usize, i8>>)
        requires
            old(self)@.request.wf(),
            old(self)@.request.live(),
            !old(self)@.request.registered,
        ensures
            final(self)@.len == old(self)@.len,
            final(self)@.request == after_poll(old(self)@.request, p).0,
            r == sent_step(after_poll(old(self)@.request, p).1, old(self)@.len),
            final(self)@.request.wf(),
    {
        let s = self.request.poll(p);
        sent(s, self.len)
    }

    pub fn recheck(&mut self, p: Progress<Result<(), i8>>) -> (r: Step<Result<usize, i8>>)
        requires
            old(self)@.request.wf(),
            old(self)@.request.registered,
        ensures
            final(self)@.len == old(self)@.len,
            final(self)@.request == after_recheck(old(self)@.request, p).0,
            r == sent_step(after_recheck(old(self)@.request, p).1, old(self)@.len),
            final(self)@.request.wf(),
    {
        let s = self.request.recheck(p);
        sent(s, self.len)
    }

    pub fn release(&mut self) -> (r: Option<usize>)
        requires
            old(self)@.request.wf(),
        ensures
            final(self)@.len == old(self)@.len,
            (final(self)@.request, r) == after_release(old(self)@.request),
            final(self)@.request.wf(),
    {
        self.request.release()
    }
}

impl Endpoint {
    /// Takes the outcome of submitting `buf` for sending: done inline returns
    /// the buffer's length, pending hands back a request that yields that
    /// length on successful completion.
    pub fn stream_send(&self, buf: &[u8], submitted: Submitted) -> (r: SendStart)
        requires
            self@.open,
            !(submitted is Failed),
        ensures
            submitted is Done ==> (r matches SendStart::Sent(n) && n == buf@.len()),
            submitted matches Submitted::Pending(t) ==> (r matches SendStart::Wait(w)
                && w@ == (SendView { request: fresh(t), len: buf@.len() as usize })),
            r matches SendStart::Wait(w) ==> w@.request.wf(),
    {
        match submitted {
            Submitted::Pending(t) => SendStart::Wait(
                SendRequest { request: RequestHandle::new(t), len: buf.len() },
            ),
            _ => SendStart::Sent(buf.len()),
        }
    }

    /// Takes the outcome of submitting a receive: done inline returns the
    /// length the engine reported, pending hands back a request to wait on
    /// with the sized check.
    pub fn stream_recv(&self, submitted: Submitted, length: usize) -> (r: RecvStart)
        requires
            self@.open,
            !(submitted is Failed),
        ensures
            submitted is Done ==> (r matches RecvStart::Received(n) && n == length),
            submitted matches Submitted::Pending(t) ==> (r matches RecvStart::Wait(h)
                && h@ == fresh(t)),
            r matches RecvStart::Wait(h) ==> h@.wf(),
    {
        match submitted {
            Submitted::Pending(t) => RecvStart::Wait(RequestHandle::new(t)),
            _ => RecvStart::Received(length),
        }
    }
}

} // verus!
