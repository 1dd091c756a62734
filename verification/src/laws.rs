//! Proved laws of the session state machine, stated over the same spec
//! functions that the coordinator's contracts use.

use vstd::prelude::*;
use crate::api::{CallView, ErrorView, OutcomeView, PlanView, RequestView, ResponseView};
use crate::codec::{cred_wf, lemma_record_round_trip, spec_encode, spec_parse};
use crate::coordinator::{outcome_fits, spec_complete, spec_plan, CoordinatorView, HubHandle};
use crate::credentials::CredentialsView;

verus! {

/// Planning any request keeps the session well-formed: a request can never
/// leave a stale handle visible beside an in-flight login attempt.
pub proof fn lemma_plan_preserves_wf(s: CoordinatorView, req: RequestView)
    requires
        !s.busy(),
        s.wf(),
    ensures
        spec_plan(s, req).0.wf(),
{
}

/// Completing any in-flight hub call keeps the session well-formed, so no
/// request ever observes a half-updated session.
pub proof fn lemma_complete_preserves_wf(s: CoordinatorView, o: OutcomeView)
    requires
        s.busy(),
        outcome_fits(s, o),
        s.wf(),
    ensures
        spec_complete(s, o).0.wf(),
        !spec_complete(s, o).0.busy(),
{
}

/// A login the hub accepts takes the session from any non-busy state to
/// authenticated, answers with the success response, and hands back exactly
/// one credentials record to persist: the same credentials the login
/// carried.  The plan phase plans exactly the one authentication call and
/// persists nothing.
pub proof fn lemma_login_accepted(s: CoordinatorView, c: CredentialsView)
    requires
        !s.busy(),
    ensures
        ({
            let (s1, p) = spec_plan(s, RequestView::Login(c));
            let (s2, r, saved) = spec_complete(s1, OutcomeView::AuthAccepted);
            &&& p == PlanView::CallHub(CallView::Authenticate(c))
            &&& s1.authenticating() && !s1.authenticated()
            &&& s2.authenticated()
            &&& s2.handle == Some(HubHandle { stamp: s.next_stamp })
            &&& !s2.busy()
            &&& r == ResponseView::LoginOk
            &&& saved == Some(c)
        }),
{
}

/// A login the hub rejects is a rejection, not an error: whatever the prior
/// state, the session is left without a handle, the answer is the rejection
/// response, and nothing is persisted.
pub proof fn lemma_login_rejected(s: CoordinatorView, c: CredentialsView)
    requires
        !s.busy(),
    ensures
        ({
            let (s1, p) = spec_plan(s, RequestView::Login(c));
            let (s2, r, saved) = spec_complete(s1, OutcomeView::AuthRejected);
            &&& p == PlanView::CallHub(CallView::Authenticate(c))
            &&& s1.authenticating() && !s1.authenticated()
            &&& !s2.authenticated()
            &&& !s2.busy()
            &&& r == ResponseView::LoginRejected
            &&& !(r is Failed)
            &&& saved is None
        }),
{
}

/// While no handle is held, every listing and every action request fails
/// with the session-absence error, leaves the coordinator untouched and
/// plans no hub call at all.
pub proof fn lemma_unauthenticated_rejects(s: CoordinatorView, req: RequestView)
    requires
        !s.busy(),
        !s.authenticated(),
        !(req is Login),
    ensures
        ({
            let (s1, p) = spec_plan(s, req);
            &&& s1 == s
            &&& p == PlanView::Reject(ResponseView::Failed(ErrorView::NotAuthenticated))
        }),
{
}

/// Startup recovery: a valid persisted record parses back to the very
/// credentials that were saved, and the one automatic login attempt made
/// with them, once the hub accepts it, leaves a fresh coordinator
/// authenticated before any client request is served.
pub proof fn lemma_startup_recovery(c: CredentialsView)
    requires
        cred_wf(c),
    ensures
        ({
            let loaded = spec_parse(spec_encode(c));
            let (s1, p) = spec_plan(CoordinatorView::initial(), RequestView::Login(c));
            let (s2, r, saved) = spec_complete(s1, OutcomeView::AuthAccepted);
            &&& loaded == Some(c)
            &&& p == PlanView::CallHub(CallView::Authenticate(c))
            &&& s2.authenticated()
            &&& !s2.busy()
        }),
{
    lemma_record_round_trip(c);
    lemma_login_accepted(CoordinatorView::initial(), c);
}

} // verus!
