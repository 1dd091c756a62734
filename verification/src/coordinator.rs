//! The session coordinator: the single choke point for every hub operation.
//!
//! The hub tolerates exactly one live authenticated session and no
//! interleaved commands, so every request passes through one exclusive
//! region.  Inside that region the transport layer drives a coordinator in
//! two steps: [`Coordinator::plan`] decides, from the session state and the
//! request, whether a hub call may run at all and which one; after the call
//! has returned, [`Coordinator::complete`] installs its consequences and
//! yields the typed response together with the credentials to persist, if
//! any.  Requests that must not touch the hub are rejected by `plan` with no
//! call planned.  The exclusive region itself is the caller's lock; the
//! serialization this discipline yields is stated and proved in
//! [`crate::serial`].

use vstd::prelude::*;
use crate::api::{
    CallView, ErrorView, HubCall, HubOutcome, OutcomeView, Plan, PlanView, Request, RequestView,
    Response, ResponseView, GatewayError,
};
use crate::credentials::{Credentials, CredentialsView};
use crate::dispatch::{dispatch, query_call, spec_dispatch, spec_query_call};

verus! {

/// The live, authenticated reference to the hub connection.  Each successful
/// login installs a fresh handle, replacing any prior one wholesale; the
/// stamp tells the replacements apart.
#[derive(Clone, Copy, PartialEq, Eq, Structural, Debug)]
pub struct HubHandle {
    pub stamp: u64,
}

/// The gateway's in-process representation of the single hub connection:
/// either no handle (unauthenticated) or exactly one.
pub struct Session {
    pub handle: Option<HubHandle>,
}

/// The hub call the coordinator is waiting on, if any.
enum Pending {
    Login(Credentials),
    Listing,
    Action,
}

/// Mathematical value of the pending hub call.
#[verifier::ext_equal]
pub ghost enum PendingView {
    Login(CredentialsView),
    Listing,
    Action,
}

/// Mathematical state of a [`Coordinator`].
#[verifier::ext_equal]
pub ghost struct CoordinatorView {
    pub handle: Option<HubHandle>,
    pub pending: Option<PendingView>,
    pub next_stamp: u64,
}

impl CoordinatorView {
    /// A handle is held: listing and action requests are permitted.
    pub open spec fn authenticated(self) -> bool {
        self.handle is Some
    }

    /// A hub call is in flight: no further request may be planned until it
    /// completes.
    pub open spec fn busy(self) -> bool {
        self.pending is Some
    }

    /// A login attempt is in progress: the prior handle is already
    /// discarded, and concurrent requests queue behind the exclusive region
    /// rather than observing this intermediate state.
    pub open spec fn authenticating(self) -> bool {
        self.pending matches Some(PendingView::Login(_))
    }

    /// The state of a coordinator before any request: unauthenticated, no
    /// call in flight.
    pub open spec fn initial() -> CoordinatorView {
        CoordinatorView { handle: None, pending: None, next_stamp: 0 }
    }

    /// No half-updated session: while a login attempt is in flight, the
    /// prior handle is already discarded, never still visible.
    pub open spec fn wf(self) -> bool {
        self.authenticating() ==> self.handle is None
    }
}

/// The next handle stamp, saturating at the largest value.
pub open spec fn bump(stamp: u64) -> u64 {
    if stamp == u64::MAX {
        stamp
    } else {
        (stamp + 1) as u64
    }
}

/// What planning one request does: the successor state and the plan.
///
/// A login discards any existing handle and plans the one authentication
/// call.  A listing or action request with a handle held plans the one hub
/// operation the dispatcher maps it to; without a handle it is rejected
/// outright, with the state unchanged and no call planned.
pub open spec fn spec_plan(s: CoordinatorView, req: RequestView) -> (CoordinatorView, PlanView) {
    match req {
        RequestView::Login(c) => (
            CoordinatorView { handle: None, pending: Some(PendingView::Login(c)), ..s },
            PlanView::CallHub(CallView::Authenticate(c)),
        ),
        RequestView::List(q) => if s.authenticated() {
            (
                CoordinatorView { pending: Some(PendingView::Listing), ..s },
                PlanView::CallHub(spec_query_call(q)),
            )
        } else {
            (s, PlanView::Reject(ResponseView::Failed(ErrorView::NotAuthenticated)))
        },
        RequestView::Act(a) => if s.authenticated() {
            (
                CoordinatorView { pending: Some(PendingView::Action), ..s },
                PlanView::CallHub(spec_dispatch(a)),
            )
        } else {
            (s, PlanView::Reject(ResponseView::Failed(ErrorView::NotAuthenticated)))
        },
    }
}

/// Whether `o` is an outcome the pending call `p` can produce.
pub open spec fn outcome_matches(p: PendingView, o: OutcomeView) -> bool {
    match p {
        PendingView::Login(_) => o is AuthAccepted || o is AuthRejected || o is Failed,
        PendingView::Listing => o is Listing || o is Failed,
        PendingView::Action => o is ActionDone || o is Failed,
    }
}

/// Whether `o` fits what the coordinator is waiting on.
pub open spec fn outcome_fits(s: CoordinatorView, o: OutcomeView) -> bool {
    match s.pending {
        Some(p) => outcome_matches(p, o),
        None => false,
    }
}

/// What completing the in-flight hub call does: the successor state, the
/// response, and the credentials to persist (present exactly when a login
/// was accepted, and then equal to the credentials the login carried).
///
/// An accepted login installs a fresh handle; a rejected or failed login
/// leaves the session without one.  Listing and action outcomes pass through
/// unchanged and never touch the handle.
pub open spec fn spec_complete(s: CoordinatorView, o: OutcomeView) -> (
    CoordinatorView,
    ResponseView,
    Option<CredentialsView>,
)
    recommends
        s.busy(),
        outcome_fits(s, o),
{
    let done = CoordinatorView { pending: None, ..s };
    match s.pending {
        Some(PendingView::Login(c)) => match o {
            OutcomeView::AuthAccepted => (
                CoordinatorView {
                    handle: Some(HubHandle { stamp: s.next_stamp }),
                    pending: None,
                    next_stamp: bump(s.next_stamp),
                },
                ResponseView::LoginOk,
                Some(c),
            ),
            OutcomeView::AuthRejected => (
                CoordinatorView { handle: None, ..done },
                ResponseView::LoginRejected,
                None,
            ),
            OutcomeView::Failed(m) => (
                CoordinatorView { handle: None, ..done },
                ResponseView::Failed(ErrorView::Hub(m)),
                None,
            ),
            _ => (done, ResponseView::LoginRejected, None),
        },
        Some(PendingView::Listing) => match o {
            OutcomeView::Listing(items) => (done, ResponseView::Listing(items), None),
            OutcomeView::Failed(m) => (done, ResponseView::Failed(ErrorView::Hub(m)), None),
            _ => (done, ResponseView::ActionOk, None),
        },
        Some(PendingView::Action) => match o {
            OutcomeView::ActionDone => (done, ResponseView::ActionOk, None),
            OutcomeView::Failed(m) => (done, ResponseView::Failed(ErrorView::Hub(m)), None),
            _ => (done, ResponseView::ActionOk, None),
        },
        None => (s, ResponseView::ActionOk, None),
    }
}

/// The credentials a completion hands back, as a mathematical value.
pub open spec fn saved_view(saved: Option<Credentials>) -> Option<CredentialsView> {
    match saved {
        Some(c) => Some(c@),
        None => None,
    }
}

/// Owns the session exclusively and serializes every operation against it.
pub struct Coordinator {
    session: Session,
    pending: Option<Pending>,
    next_stamp: u64,
}

impl View for Coordinator {
    type V = CoordinatorView;

    closed spec fn view(&self) -> CoordinatorView {
        CoordinatorView {
            handle: self.session.handle,
            pending: match self.pending {
                Some(Pending::Login(c)) => Some(PendingView::Login(c@)),
                Some(Pending::Listing) => Some(PendingView::Listing),
                Some(Pending::Action) => Some(PendingView::Action),
                None => None,
            },
            next_stamp: self.next_stamp,
        }
    }
}

impl Coordinator {
    /// A handle is held.
    pub open spec fn authenticated(&self) -> bool {
        self@.authenticated()
    }

    /// A hub call is in flight.
    pub open spec fn busy(&self) -> bool {
        self@.busy()
    }

    /// A fresh coordinator: unauthenticated, nothing in flight.
    pub fn new() -> (c: Coordinator)
        ensures
            c@ == CoordinatorView::initial(),
    {
        Coordinator { session: Session { handle: None }, pending: None, next_stamp: 0 }
    }

    /// Whether a handle is currently held.
    pub fn is_authenticated(&self) -> (b: bool)
        ensures
            b == self.authenticated(),
    {
        self.session.handle.is_some()
    }

    /// Whether a hub call is currently in flight.
    pub fn is_busy(&self) -> (b: bool)
        ensures
            b == self.busy(),
    {
        self.pending.is_some()
    }

    /// Decides one request: the one hub call to run, or an immediate
    /// rejection with no hub call.  Exactly [`spec_plan`].
    pub fn plan(&mut self, req: Request) -> (p: Plan)
        requires
            !old(self).busy(),
        ensures
            final(self)@ == spec_plan(old(self)@, req@).0,
            p@ == spec_plan(old(self)@, req@).1,
            (p@ is CallHub) == final(self).busy(),
    {
        match req {
            Request::Login(c) => {
                self.session.handle = None;
                let call_creds = c.clone();
                self.pending = Some(Pending::Login(c));
                Plan::CallHub(HubCall::Authenticate(call_creds))
            },
            Request::List(q) => {
                if self.session.handle.is_some() {
                    self.pending = Some(Pending::Listing);
                    Plan::CallHub(query_call(q))
                } else {
                    Plan::Reject(Response::Failed(GatewayError::NotAuthenticated))
                }
            },
            Request::Act(a) => {
                if self.session.handle.is_some() {
                    self.pending = Some(Pending::Action);
                    Plan::CallHub(dispatch(a))
                } else {
                    Plan::Reject(Response::Failed(GatewayError::NotAuthenticated))
                }
            },
        }
    }

    /// Installs the consequences of the completed hub call and yields the
    /// typed response, together with the credentials to persist where a
    /// login was accepted.  Exactly [`spec_complete`].
    pub fn complete(&mut self, outcome: HubOutcome) -> (r: (Response, Option<Credentials>))
        requires
            old(self).busy(),
            outcome_fits(old(self)@, outcome@),
        ensures
            !final(self).busy(),
            final(self)@ == spec_complete(old(self)@, outcome@).0,
            r.0@ == spec_complete(old(self)@, outcome@).1,
            saved_view(r.1) == spec_complete(old(self)@, outcome@).2,
    {
        let p = self.pending.take();
        match p {
            Some(Pending::Login(c)) => match outcome {
                HubOutcome::AuthAccepted => {
                    let stamp = self.next_stamp;
                    self.session.handle = Some(HubHandle { stamp });
                    self.next_stamp = if stamp == u64::MAX {
                        stamp
                    } else {
                        stamp + 1
                    };
                    (Response::LoginOk, Some(c))
                },
                HubOutcome::AuthRejected => {
                    self.session.handle = None;
                    (Response::LoginRejected, None)
                },
                HubOutcome::Failed(f) => {
                    self.session.handle = None;
                    (Response::Failed(GatewayError::Hub(f)), None)
                },
                _ => {
                    proof {
                        assert(false);
                    }
                    (Response::LoginRejected, None)
                },
            },
            Some(Pending::Listing) => match outcome {
                HubOutcome::Listing(items) => (Response::Listing(items), None),
                HubOutcome::Failed(f) => (Response::Failed(GatewayError::Hub(f)), None),
                _ => {
                    proof {
                        assert(false);
                    }
                    (Response::ActionOk, None)
                },
            },
            Some(Pending::Action) => match outcome {
                HubOutcome::ActionDone => (Response::ActionOk, None),
                HubOutcome::Failed(f) => (Response::Failed(GatewayError::Hub(f)), None),
                _ => {
                    proof {
                        assert(false);
                    }
                    (Response::ActionOk, None)
                },
            },
            None => {
                proof {
                    assert(false);
                }
                (Response::ActionOk, None)
            },
        }
    }
}

} // verus!
