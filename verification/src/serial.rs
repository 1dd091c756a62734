//! The serialization discipline, as a transition system, with the proof
//! that it keeps at most one hub operation in flight at any instant.
//!
//! Each request handler, whatever thread it runs on, interleaves four kinds
//! of step: entering the coordinator's exclusive region (the lock grants
//! this only while the region is free), starting the one hub call that
//! [`crate::coordinator::Coordinator::plan`] planned (only inside the
//! region, and at most once per occupancy — the coordinator's busy flag),
//! ending that call ([`crate::coordinator::Coordinator::complete`]), and
//! leaving the region once nothing is in flight.  Any interleaving that any
//! number of concurrent requests can produce under this discipline is such a
//! trace; the closing lemma shows that along every trace the number of hub
//! operations in flight never exceeds one.

use vstd::prelude::*;

verus! {

/// One abstract step of some request handler.
pub ghost enum TraceStep {
    /// The lock grants the exclusive region; possible only while it is free.
    Enter,
    /// The planned hub call starts; only inside the region, at most once per
    /// occupancy.
    StartCall,
    /// The in-flight hub call returns.
    EndCall,
    /// The region is released; only once no call is in flight.
    Leave,
}

/// The abstract state: whether the region is held, whether the holder's
/// call was started and not yet completed, and how many hub operations are
/// in flight.  The count is kept apart from the flags precisely so that "at
/// most one in flight" is a theorem about the discipline, not a definition.
#[verifier::ext_equal]
pub ghost struct TraceState {
    pub held: bool,
    pub started: bool,
    pub in_flight: nat,
}

/// The state before any request: region free, nothing in flight.
pub open spec fn trace_init() -> TraceState {
    TraceState { held: false, started: false, in_flight: 0 }
}

/// Whether `step` may happen in state `s`: the lock's exclusivity and the
/// coordinator's plan/complete protocol.
pub open spec fn step_enabled(s: TraceState, step: TraceStep) -> bool {
    match step {
        TraceStep::Enter => !s.held,
        TraceStep::StartCall => s.held && !s.started,
        TraceStep::EndCall => s.started,
        TraceStep::Leave => s.held && !s.started,
    }
}

/// The state after `step` happens in state `s`.
pub open spec fn step_next(s: TraceState, step: TraceStep) -> TraceState {
    match step {
        TraceStep::Enter => TraceState { held: true, ..s },
        TraceStep::StartCall => TraceState { started: true, in_flight: s.in_flight + 1, ..s },
        TraceStep::EndCall => TraceState {
            started: false,
            in_flight: if s.in_flight > 0 {
                (s.in_flight - 1) as nat
            } else {
                0
            },
            ..s
        },
        TraceStep::Leave => TraceState { held: false, ..s },
    }
}

/// The state after a whole trace, step by step from `s`.
pub open spec fn run(s: TraceState, steps: Seq<TraceStep>) -> TraceState
    decreases steps.len(),
{
    if steps.len() == 0 {
        s
    } else {
        run(step_next(s, steps[0]), steps.drop_first())
    }
}

/// A trace every step of which was enabled when it happened.
pub open spec fn valid_from(s: TraceState, steps: Seq<TraceStep>) -> bool
    decreases steps.len(),
{
    steps.len() == 0 || (step_enabled(s, steps[0]) && valid_from(
        step_next(s, steps[0]),
        steps.drop_first(),
    ))
}

/// The inductive invariant: the in-flight count equals the started flag,
/// and a started call implies the region is held.
pub open spec fn inv(s: TraceState) -> bool {
    &&& s.in_flight == if s.started {
        1nat
    } else {
        0nat
    }
    &&& (s.started ==> s.held)
}

proof fn lemma_step_preserves_inv(s: TraceState, step: TraceStep)
    requires
        inv(s),
        step_enabled(s, step),
    ensures
        inv(step_next(s, step)),
{
}

proof fn lemma_run_preserves_inv(s: TraceState, steps: Seq<TraceStep>)
    requires
        inv(s),
        valid_from(s, steps),
    ensures
        inv(run(s, steps)),
    decreases steps.len(),
{
    if steps.len() > 0 {
        lemma_step_preserves_inv(s, steps[0]);
        lemma_run_preserves_inv(step_next(s, steps[0]), steps.drop_first());
    }
}

/// A prefix of a valid trace is itself a valid trace.
proof fn lemma_valid_prefix(s: TraceState, steps: Seq<TraceStep>, i: int)
    requires
        valid_from(s, steps),
        0 <= i <= steps.len(),
    ensures
        valid_from(s, steps.take(i)),
    decreases i,
{
    if i > 0 {
        assert(steps.take(i)[0] == steps[0]);
        assert(steps.take(i).drop_first() =~= steps.drop_first().take(i - 1));
        lemma_valid_prefix(step_next(s, steps[0]), steps.drop_first(), i - 1);
    }
}

/// For every sequence of concurrent requests — that is, for every
/// interleaving their handlers can produce under the lock and the
/// coordinator's protocol — at most one hub operation is in flight at every
/// point of the trace.
pub proof fn lemma_at_most_one_in_flight(steps: Seq<TraceStep>, i: int)
    requires
        valid_from(trace_init(), steps),
        0 <= i <= steps.len(),
    ensures
        run(trace_init(), steps.take(i)).in_flight <= 1,
{
    lemma_valid_prefix(trace_init(), steps, i);
    lemma_run_preserves_inv(trace_init(), steps.take(i));
}

/// The steps one request handler contributes while it holds the region:
/// enter, run the planned hub call if the coordinator planned one, leave.
pub open spec fn handler_trace(runs_call: bool) -> Seq<TraceStep> {
    if runs_call {
        seq![TraceStep::Enter, TraceStep::StartCall, TraceStep::EndCall, TraceStep::Leave]
    } else {
        seq![TraceStep::Enter, TraceStep::Leave]
    }
}

/// The trace of a whole queue of requests served one after the other, each
/// either running its planned hub call or rejected without one.
pub open spec fn queue_trace(shapes: Seq<bool>) -> Seq<TraceStep>
    decreases shapes.len(),
{
    if shapes.len() == 0 {
        Seq::empty()
    } else {
        handler_trace(shapes[0]) + queue_trace(shapes.drop_first())
    }
}

/// A valid trace continued by a trace valid from its end state is valid.
proof fn lemma_valid_append(s: TraceState, a: Seq<TraceStep>, b: Seq<TraceStep>)
    requires
        valid_from(s, a),
        valid_from(run(s, a), b),
    ensures
        valid_from(s, a + b),
        run(s, a + b) == run(run(s, a), b),
    decreases a.len(),
{
    if a.len() == 0 {
        assert(a + b =~= b);
    } else {
        assert((a + b)[0] == a[0]);
        assert((a + b).drop_first() =~= a.drop_first() + b);
        lemma_valid_append(step_next(s, a[0]), a.drop_first(), b);
    }
}

/// One handler's occupancy is a valid trace from the idle state, and hands
/// the idle state back.
proof fn lemma_handler_trace_valid(runs_call: bool)
    ensures
        valid_from(trace_init(), handler_trace(runs_call)),
        run(trace_init(), handler_trace(runs_call)) == trace_init(),
{
    let t = handler_trace(runs_call);
    let s0 = trace_init();
    let s1 = step_next(s0, TraceStep::Enter);
    assert(t[0] == TraceStep::Enter);
    if runs_call {
        let s2 = step_next(s1, TraceStep::StartCall);
        let s3 = step_next(s2, TraceStep::EndCall);
        let s4 = step_next(s3, TraceStep::Leave);
        let t1 = t.drop_first();
        let t2 = t1.drop_first();
        let t3 = t2.drop_first();
        let t4 = t3.drop_first();
        assert(t1 =~= seq![TraceStep::StartCall, TraceStep::EndCall, TraceStep::Leave]);
        assert(t2 =~= seq![TraceStep::EndCall, TraceStep::Leave]);
        assert(t3 =~= seq![TraceStep::Leave]);
        assert(t4 =~= Seq::<TraceStep>::empty());
        assert(t1[0] == TraceStep::StartCall);
        assert(t2[0] == TraceStep::EndCall);
        assert(t3[0] == TraceStep::Leave);
        assert(valid_from(s4, t4));
        assert(run(s4, t4) == s4);
        assert(valid_from(s3, t3) && run(s3, t3) == s4);
        assert(valid_from(s2, t2) && run(s2, t2) == s4);
        assert(valid_from(s1, t1) && run(s1, t1) == s4);
        assert(valid_from(s0, t) && run(s0, t) == s4);
        assert(s4 =~= s0);
    } else {
        let s2 = step_next(s1, TraceStep::Leave);
        let t1 = t.drop_first();
        let t2 = t1.drop_first();
        assert(t1 =~= seq![TraceStep::Leave]);
        assert(t2 =~= Seq::<TraceStep>::empty());
        assert(t1[0] == TraceStep::Leave);
        assert(valid_from(s2, t2));
        assert(run(s2, t2) == s2);
        assert(valid_from(s1, t1) && run(s1, t1) == s2);
        assert(valid_from(s0, t) && run(s0, t) == s2);
        assert(s2 =~= s0);
    }
}

/// The discipline is live, not vacuous: however many requests queue up, and
/// whether or not each gets a hub call, serving them one occupancy after
/// another yields a valid trace — so [`lemma_at_most_one_in_flight`] speaks
/// about every run the gateway produces.
pub proof fn lemma_queue_trace_valid(shapes: Seq<bool>)
    ensures
        valid_from(trace_init(), queue_trace(shapes)),
        run(trace_init(), queue_trace(shapes)) == trace_init(),
    decreases shapes.len(),
{
    if shapes.len() > 0 {
        lemma_handler_trace_valid(shapes[0]);
        lemma_queue_trace_valid(shapes.drop_first());
        lemma_valid_append(
            trace_init(),
            handler_trace(shapes[0]),
            queue_trace(shapes.drop_first()),
        );
    }
}

} // verus!
