//! The completion bridge: turns a pending request ticket into a value that a
//! suspended caller receives exactly once, and releases the request slot back
//! to the engine exactly once.
//!
//! One resume of the caller is a `poll` followed, when it asks for it, by a
//! `recheck`: the driver checks completion, and only if the operation is still
//! running registers its wake handle and checks again. A completion that lands
//! between the first check and the registration is caught by the second check.
use vstd::prelude::*;
use crate::status::Progress;

verus! {

/// Where one bridged operation stands.
#[derive(Debug, Clone, Copy, PartialEq, Eq, Structural)]
pub enum BridgeState {
    /// Handed a ticket, not yet polled.
    Submitted,
    /// Polled at least once and still running.
    Pending,
    /// Its value was handed to the caller.
    Resolved,
    /// Released before its value was handed out.
    Cancelled,
}

/// What the driver of the bridge does next.
#[derive(Debug, PartialEq, Eq)]
pub enum Step<T> {
    /// The operation is done: resume the caller with this value.
    Ready(T),
    /// Register the task's wake handle in the request slot, then `recheck`.
    Register,
    /// The wake handle is registered and the operation still runs: suspend.
    Suspend,
}

/// The abstract state of a bridge, with counters of the events that matter.
pub struct BridgeView {
    pub ticket: usize,
    pub state: BridgeState,
    /// A wake handle was asked for and the following recheck is due.
    pub registered: bool,
    /// The request slot was handed back to the engine.
    pub released: bool,
    /// How many times a wake handle was asked for.
    pub registrations: nat,
    /// How many times a value was handed out.
    pub resolutions: nat,
    /// How many times the slot was released.
    pub releases: nat,
}

/// One in-flight operation bridged to a suspended caller.
pub struct RequestHandle {
    ticket: usize,
    state: BridgeState,
    registered: bool,
    released: bool,
    registrations: Ghost<nat>,
    resolutions: Ghost<nat>,
    releases: Ghost<nat>,
}

impl View for RequestHandle {
    type V = BridgeView;

    closed spec fn view(&self) -> BridgeView {
        BridgeView {
            ticket: self.ticket,
            state: self.state,
            registered: self.registered,
            released: self.released,
            registrations: self.registrations@,
            resolutions: self.resolutions@,
            releases: self.releases@,
        }
    }
}

impl BridgeView {
    /// The counters agree with the state: a value goes out at most once and
    /// the slot is released at most once.
    pub open spec fn wf(self) -> bool {
        &&& self.resolutions == (if self.state == BridgeState::Resolved { 1nat } else { 0nat })
        &&& self.releases == (if self.released { 1nat } else { 0nat })
        &&& (self.state == BridgeState::Cancelled <==> self.released && self.state != BridgeState::Resolved)
        &&& (self.registered ==> self.state == BridgeState::Pending && !self.released)
    }

    /// Still waiting for its value, and may be polled.
    pub open spec fn live(self) -> bool {
        &&& !self.released
        &&& (self.state == BridgeState::Submitted || self.state == BridgeState::Pending)
    }
}

/// A bridge just handed a pending ticket.
pub open spec fn fresh(ticket: usize) -> BridgeView {
    BridgeView {
        ticket,
        state: BridgeState::Submitted,
        registered: false,
        released: false,
        registrations: 0,
        resolutions: 0,
        releases: 0,
    }
}

/// The first completion check of a resume.
pub open spec fn after_poll<T>(v: BridgeView, p: Progress<T>) -> (BridgeView, Step<T>) {
    match p {
        Progress::Complete(x) => (
            BridgeView { state: BridgeState::Resolved, resolutions: v.resolutions + 1, ..v },
            Step::Ready(x),
        ),
        Progress::InProgress => (
            BridgeView {
                state: BridgeState::Pending,
                registered: true,
                registrations: v.registrations + 1,
                ..v
            },
            Step::Register,
        ),
    }
}

/// The check that follows the registration of the wake handle.
pub open spec fn after_recheck<T>(v: BridgeView, p: Progress<T>) -> (BridgeView, Step<T>) {
    match p {
        Progress::Complete(x) => (
            BridgeView {
                state: BridgeState::Resolved,
                registered: false,
                resolutions: v.resolutions + 1,
                ..v
            },
            Step::Ready(x),
        ),
        Progress::InProgress => (BridgeView { registered: false, ..v }, Step::Suspend),
    }
}

/// Handing the request slot back to the engine; the ticket is released the
/// first time only, and an unresolved operation becomes cancelled.
pub open spec fn after_release(v: BridgeView) -> (BridgeView, Option<usize>) {
    if v.released {
        (v, None)
    } else {
        (
            BridgeView {
                state: if v.state == BridgeState::Resolved {
                    BridgeState::Resolved
                } else {
                    BridgeState::Cancelled
                },
                registered: false,
                released: true,
                releases: v.releases + 1,
                ..v
            },
            Some(v.ticket),
        )
    }
}

/// `n` resumes that each found the operation still running: the first check
/// said in progress, a wake handle was registered, the recheck said the same.
pub open spec fn idle_rounds(v: BridgeView, n: nat) -> BridgeView
    decreases n,
{
    if n == 0 {
        v
    } else {
        let w = idle_rounds(v, (n - 1) as nat);
        after_recheck(after_poll(w, Progress::<()>::InProgress).0, Progress::<()>::InProgress).0
    }
}

/// An operation that is complete at its first check resolves without any
/// wake handle being registered.
pub proof fn lemma_immediate_completion_registers_nothing<T>(ticket: usize, x: T)
    ensures
        after_poll(fresh(ticket), Progress::Complete(x)).1 == Step::Ready(x),
        after_poll(fresh(ticket), Progress::Complete(x)).0.registrations == 0,
        after_poll(fresh(ticket), Progress::Complete(x)).0.resolutions == 1,
        after_poll(fresh(ticket), Progress::Complete(x)).0.wf(),
{
}

/// Resumes that find the operation running keep it live and unresolved, and
/// register one wake handle each.
pub proof fn lemma_idle_rounds(ticket: usize, n: nat)
    ensures
        idle_rounds(fresh(ticket), n).wf(),
        idle_rounds(fresh(ticket), n).live(),
        !idle_rounds(fresh(ticket), n).registered,
        idle_rounds(fresh(ticket), n).resolutions == 0,
        idle_rounds(fresh(ticket), n).registrations == n,
        idle_rounds(fresh(ticket), n).ticket == ticket,
    decreases n,
{
    if n > 0 {
        lemma_idle_rounds(ticket, (n - 1) as nat);
    }
}

/// An operation that the engine completes after `n` idle resumes resolves
/// exactly once, with its value, having registered `n` wake handles; after
/// that the bridge is no longer live, so it cannot resolve again.
pub proof fn lemma_resolves_exactly_once<T>(ticket: usize, n: nat, x: T)
    ensures
        ({
            let (v, s) = after_poll(idle_rounds(fresh(ticket), n), Progress::Complete(x));
            &&& s == Step::Ready(x)
            &&& v.wf()
            &&& v.resolutions == 1
            &&& v.registrations == n
            &&& v.state == BridgeState::Resolved
            &&& !v.live()
        }),
{
    lemma_idle_rounds(ticket, n);
}

/// A completion that lands between the first check and the registration of
/// the wake handle is seen by the recheck: the caller is resumed with the
/// value rather than left waiting for a wake that already happened.
pub proof fn lemma_no_lost_wakeup<T>(v: BridgeView, x: T)
    requires
        v.wf(),
        v.live(),
        !v.registered,
        v.resolutions == 0,
    ensures
        ({
            let (v1, s1) = after_poll(v, Progress::<T>::InProgress);
            let (v2, s2) = after_recheck(v1, Progress::Complete(x));
            &&& s1 == Step::<T>::Register
            &&& s2 == Step::Ready(x)
            &&& v2.state == BridgeState::Resolved
            &&& v2.resolutions == 1
            &&& v2.wf()
        }),
{
}

/// Whether the operation resolved, is still running, or was abandoned, the
/// request slot is released exactly once: the first release hands the ticket
/// back, any later one hands back nothing.
pub proof fn lemma_release_exactly_once(v: BridgeView)
    requires
        v.wf(),
    ensures
        ({
            let (v1, r1) = after_release(v);
            let (v2, r2) = after_release(v1);
            &&& v1.releases == 1
            &&& v2.releases == 1
            &&& r1 == (if v.released { None } else { Some(v.ticket) })
            &&& r2 == None::<usize>
            &&& v1.state == (if v.state == BridgeState::Resolved {
                BridgeState::Resolved
            } else {
                BridgeState::Cancelled
            })
            &&& v1.wf()
            &&& v2.wf()
        }),
{
}

impl RequestHandle {
    /// Takes charge of the request slot behind a pending ticket.
    pub fn new(ticket: usize) -> (r: RequestHandle)
        ensures
            r@ == fresh(ticket),
            r@.wf(),
    {
        RequestHandle {
            ticket,
            state: BridgeState::Submitted,
            registered: false,
            released: false,
            registrations: Ghost(0),
            resolutions: Ghost(0),
            releases: Ghost(0),
        }
    }

    /// Starts a resume with the first completion check: a finished operation
    /// resolves at once, with no wake handle registered; otherwise the driver
    /// is told to register and recheck.
    pub fn poll<T>(&mut self, p: Progress<T>) -> (r: Step<T>)
        requires
            old(self)@.wf(),
            old(self)@.live(),
            !old(self)@.registered,
        ensures
            (final(self)@, r) == after_poll(old(self)@, p),
            final(self)@.wf(),
    {
        match p {
            Progress::Complete(x) => {
                self.state = BridgeState::Resolved;
                self.resolutions = Ghost(self.resolutions@ + 1);
                Step::Ready(x)
            },
            Progress::InProgress => {
                self.state = BridgeState::Pending;
                self.registered = true;
                self.registrations = Ghost(self.registrations@ + 1);
                Step::Register
            },
        }
    }

    /// Ends a resume with the check after registration: a completion that
    /// raced with the registration still resolves here.
    pub fn recheck<T>(&mut self, p: Progress<T>) -> (r: Step<T>)
        requires
            old(self)@.wf(),
            old(self)@.registered,
        ensures
            (final(self)@, r) == after_recheck(old(self)@, p),
            final(self)@.wf(),
    {
        self.registered = false;
        match p {
            Progress::Complete(x) => {
                self.state = BridgeState::Resolved;
                self.resolutions = Ghost(self.resolutions@ + 1);
                Step::Ready(x)
            },
            Progress::InProgress => Step::Suspend,
        }
    }

    /// Gives the request slot back: returns the ticket to free the first time,
    /// `None` ever after.
    pub fn release(&mut self) -> (r: Option<usize>)
        requires
            old(self)@.wf(),
        ensures
            (final(self)@, r) == after_release(old(self)@),
            final(self)@.wf(),
    {
        if self.released {
            None
        } else {
            if self.state != BridgeState::Resolved {
                self.state = BridgeState::Cancelled;
            }
            self.registered = false;
            self.released = true;
            self.releases = Ghost(self.releases@ + 1);
            Some(self.ticket)
        }
    }

    pub fn ticket(&self) -> (r: usize)
        ensures
            r == self@.ticket,
    {
        self.ticket
    }

    pub fn state(&self) -> (r: BridgeState)
        ensures
            r == self@.state,
    {
        self.state
    }

    pub fn is_released(&self) -> (r: bool)
        ensures
            r == self@.released,
    {
        self.released
    }
}

} // verus!
