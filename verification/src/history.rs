//! What holds of intents processed one after another.

use crate::engine::IntentView;
use crate::switcher::{
    SwitchOutcomeView, SwitchRequestView, SwitcherView, after_outcome, after_request, request_for,
};
use vstd::prelude::*;

verus! {

/// One intent together with the outcome of invoking the engine for it. The
/// outcome plays no part where the intent invokes nothing.
pub struct Step {
    pub intent: IntentView,
    pub outcome: SwitchOutcomeView,
}

/// The state after `step` has been processed from start to end.
pub open spec fn processed(state: SwitcherView, step: Step) -> SwitcherView {
    match request_for(state, step.intent) {
        Some(request) => after_outcome(after_request(state, step.intent), request, step.outcome),
        None => after_request(state, step.intent),
    }
}

/// The state after a series of steps, each processed before the next begins.
pub open spec fn processed_all(state: SwitcherView, steps: Seq<Step>) -> SwitcherView
    decreases steps.len(),
{
    if steps.len() == 0 {
        state
    } else {
        processed(processed_all(state, steps.drop_last()), steps.last())
    }
}

/// The engines invoked in the course of a series of steps, in order.
pub open spec fn invocations(state: SwitcherView, steps: Seq<Step>) -> Seq<Seq<char>>
    decreases steps.len(),
{
    if steps.len() == 0 {
        Seq::empty()
    } else {
        let before = invocations(state, steps.drop_last());
        match request_for(processed_all(state, steps.drop_last()), steps.last().intent) {
            Some(request) => before.push(request.engine),
            None => before,
        }
    }
}

/// Whether `intent` is a toggle or a forced switch.
pub open spec fn is_direct(intent: IntentView) -> bool {
    intent is Toggle || intent is ForceSwitch
}

/// The only intent that invokes nothing is a reconciliation with nothing
/// pending, and it leaves the state as it was.
pub proof fn lemma_reconcile_without_pending(state: SwitcherView, step: Step)
    ensures
        request_for(state, step.intent) is None <==> step.intent is ReconcilePending
            && state.pending is None,
        request_for(state, step.intent) is None ==> processed(state, step) == state,
{
}

/// A switch that fails leaves the current engine as it was and nothing pending.
pub proof fn lemma_failed_switch(state: SwitcherView, step: Step)
    requires
        !step.outcome.applied,
    ensures
        processed(state, step).current == state.current,
        processed(state, step).pending is None,
{
}

/// A switch that succeeds makes the engine invoked the current one.
pub proof fn lemma_applied_switch(state: SwitcherView, step: Step)
    requires
        step.outcome.applied,
        request_for(state, step.intent) is Some,
    ensures
        processed(state, step).current == request_for(state, step.intent)->Some_0.engine,
{
}

/// From a switch to its reconciliation: when a toggle or forced switch
/// succeeds while the desktop reports another engine, that engine is pending;
/// the next reconciliation invokes it after the configured delay and, once
/// that has succeeded, nothing is pending and a further reconciliation
/// invokes nothing.
pub proof fn lemma_switch_then_reconcile(
    state: SwitcherView,
    step: Step,
    reconcile: Step,
    again: Step,
)
    requires
        is_direct(step.intent),
        step.outcome.applied,
        step.outcome.reported is Some,
        step.outcome.reported->Some_0 != request_for(state, step.intent)->Some_0.engine,
        reconcile.intent is ReconcilePending,
        reconcile.outcome.applied,
        again.intent is ReconcilePending,
    ensures
        ({
            let reported = step.outcome.reported->Some_0;
            let first = processed(state, step);
            let second = processed(first, reconcile);
            &&& first.pending == Some(reported)
            &&& request_for(first, reconcile.intent) == Some(
                SwitchRequestView {
                    engine: reported,
                    delay_ms: state.config.reconcile_delay_ms,
                    reconciling: true,
                },
            )
            &&& second.pending is None
            &&& second.current == reported
            &&& request_for(second, again.intent) is None
        }),
{
}

/// Processing intents never touches the configuration, the keyboard state or
/// the remembered window.
pub proof fn lemma_processing_keeps_the_rest(state: SwitcherView, steps: Seq<Step>)
    ensures
        processed_all(state, steps).config == state.config,
        processed_all(state, steps).keyboard == state.keyboard,
        processed_all(state, steps).focused_window == state.focused_window,
    decreases steps.len(),
{
    if steps.len() > 0 {
        lemma_processing_keeps_the_rest(state, steps.drop_last());
    }
}

/// How many steps of a series invoke nothing: the reconciliations that find
/// nothing pending.
pub open spec fn idle_steps(state: SwitcherView, steps: Seq<Step>) -> nat
    decreases steps.len(),
{
    if steps.len() == 0 {
        0
    } else {
        let before = processed_all(state, steps.drop_last());
        let idle: nat = if steps.last().intent is ReconcilePending && before.pending is None {
            1
        } else {
            0
        };
        idle_steps(state, steps.drop_last()) + idle
    }
}

/// There is exactly one invocation for each step that is not a reconciliation
/// with nothing pending: none is lost and none is made twice. Where every
/// step is a toggle or a forced switch there are as many invocations as steps.
pub proof fn lemma_one_invocation_per_intent(state: SwitcherView, steps: Seq<Step>)
    ensures
        invocations(state, steps).len() + idle_steps(state, steps) == steps.len(),
        (forall|i: int| 0 <= i < steps.len() ==> is_direct((#[trigger] steps[i]).intent))
            ==> invocations(state, steps).len() == steps.len(),
    decreases steps.len(),
{
    if steps.len() > 0 {
        let head = steps.drop_last();
        lemma_one_invocation_per_intent(state, head);
        if forall|i: int| 0 <= i < steps.len() ==> is_direct((#[trigger] steps[i]).intent) {
            assert forall|i: int| 0 <= i < head.len() implies is_direct(
                (#[trigger] head[i]).intent,
            ) by {
                assert(head[i] == steps[i]);
            }
            assert(is_direct(steps[steps.len() - 1].intent));
        }
    }
}

/// The engine invoked by the last step of a series whose switch succeeded, or
/// the engine that was current at the start if none did.
pub open spec fn last_applied(state: SwitcherView, steps: Seq<Step>) -> Seq<char>
    decreases steps.len(),
{
    if steps.len() == 0 {
        state.current
    } else {
        let before = processed_all(state, steps.drop_last());
        match request_for(before, steps.last().intent) {
            Some(request) => if steps.last().outcome.applied {
                request.engine
            } else {
                last_applied(state, steps.drop_last())
            },
            None => last_applied(state, steps.drop_last()),
        }
    }
}

/// The current engine after a series of steps is the target of the last one
/// that was processed with success.
pub proof fn lemma_current_is_last_applied(state: SwitcherView, steps: Seq<Step>)
    ensures
        processed_all(state, steps).current == last_applied(state, steps),
        steps.len() > 0 && is_direct(steps.last().intent) && steps.last().outcome.applied
            ==> processed_all(state, steps).current == invocations(state, steps).last(),
    decreases steps.len(),
{
    if steps.len() > 0 {
        lemma_current_is_last_applied(state, steps.drop_last());
    }
}

} // verus!
