//! The decisions of an actor's control loop.
//!
//! An actor repeats one cycle: it runs its `pre_run` hook, receives one
//! message, dispatches it to the handler of its variant and, unless the
//! handler asked to terminate, runs its `post_run` hook. Receiving and
//! handling are the actor's own work; what to do next is decided here,
//! as a state machine that is told what happened and answers with the
//! next state and the next thing to do.

use crate::signal::{lemma_signal_round_trip, ShouldTerminate};
use vstd::prelude::*;

verus! {

/// Where an actor stands in its cycle.
#[derive(Clone, Copy, Debug, PartialEq, Eq)]
pub enum ActorState {
    /// Between two cycles; the state an actor starts in.
    Idle,
    /// Waiting for a message.
    Receiving,
    /// A handler is at work on the message received.
    Dispatching,
    /// A handler asked to terminate. Nothing follows.
    Terminated,
}

/// What happened to an actor.
#[derive(Clone, Copy, Debug, PartialEq, Eq)]
pub enum Event<M> {
    /// A cycle is due.
    Wake,
    /// This message arrived.
    Message(M),
    /// The handler returned this signal.
    Handled(ShouldTerminate),
}

/// What an actor has to do next.
#[derive(Clone, Copy, Debug, PartialEq, Eq)]
pub enum Action<M> {
    /// Run the `pre_run` hook, then wait for a message.
    PreRun,
    /// Hand this message to the handler of its variant.
    Dispatch(M),
    /// Run the `post_run` hook; the next cycle is due after it.
    PostRun,
    /// Leave the loop.
    Stop,
}

/// The answer to an event: the state the actor moves to and what it has to
/// do there.
#[derive(Clone, Copy, Debug, PartialEq, Eq)]
pub struct Transition<M> {
    pub next: ActorState,
    pub action: Action<M>,
}

/// The transitions of the control loop. An event that the state does not
/// wait for has none.
pub open spec fn transition<M>(state: ActorState, event: Event<M>) -> Option<Transition<M>> {
    match (state, event) {
        (ActorState::Idle, Event::Wake) => Some(
            Transition { next: ActorState::Receiving, action: Action::PreRun },
        ),
        (ActorState::Receiving, Event::Message(message)) => Some(
            Transition { next: ActorState::Dispatching, action: Action::Dispatch(message) },
        ),
        (ActorState::Dispatching, Event::Handled(signal)) => if signal@ {
            Some(Transition { next: ActorState::Terminated, action: Action::Stop })
        } else {
            Some(Transition { next: ActorState::Idle, action: Action::PostRun })
        },
        _ => None,
    }
}

/// The signal an event carries from a handler, if it carries one.
pub open spec fn handled<M>(event: Event<M>) -> Option<bool> {
    match event {
        Event::Handled(signal) => Some(signal@),
        _ => None,
    }
}

/// The transition that ends one whole cycle from [`ActorState::Idle`] in
/// which the handler returns `signal`: the third of the cycle, after the
/// actor woke and a message arrived.
pub open spec fn cycle_end(signal: ShouldTerminate) -> Transition<()> {
    let woken = transition::<()>(ActorState::Idle, Event::Wake).unwrap();
    let received = transition(woken.next, Event::Message(())).unwrap();
    transition::<()>(received.next, Event::Handled(signal)).unwrap()
}

/// The account of a run: how many cycles were begun, how often `post_run`
/// ran, and the state at the end.
pub struct Run {
    pub cycles: nat,
    pub post_runs: nat,
    pub state: ActorState,
}

/// The run of an actor whose handlers return `signals`, in this order,
/// from [`ActorState::Idle`]: cycle after cycle, as long as a cycle ends
/// idle and a signal is left.
pub open spec fn run(signals: Seq<ShouldTerminate>) -> Run
    decreases signals.len(),
{
    if signals.len() == 0 {
        Run { cycles: 0, post_runs: 0, state: ActorState::Idle }
    } else {
        let last = cycle_end(signals[0]);
        let post_run: nat = if last.action == Action::<()>::PostRun {
            1
        } else {
            0
        };
        if last.next == ActorState::Idle {
            let rest = run(signals.drop_first());
            Run {
                cycles: rest.cycles + 1,
                post_runs: rest.post_runs + post_run,
                state: rest.state,
            }
        } else {
            Run { cycles: 1, post_runs: post_run, state: last.next }
        }
    }
}

/// A cycle is three transitions: wake, message, handled. The message
/// received is handed to the handler unchanged. Where the handler asks to
/// terminate the actor stops, without `post_run`; where it does not, the
/// actor runs `post_run` and is idle again.
pub proof fn lemma_cycle<M>(message: M, signal: ShouldTerminate)
    ensures
        transition::<M>(ActorState::Idle, Event::Wake) == Some(
            Transition::<M> { next: ActorState::Receiving, action: Action::PreRun },
        ),
        transition(ActorState::Receiving, Event::Message(message)) == Some(
            Transition { next: ActorState::Dispatching, action: Action::Dispatch(message) },
        ),
        transition::<M>(ActorState::Dispatching, Event::Handled(signal)) == Some(
            if signal@ {
                Transition::<M> { next: ActorState::Terminated, action: Action::Stop }
            } else {
                Transition::<M> { next: ActorState::Idle, action: Action::PostRun }
            },
        ),
{
}

/// [`ActorState::Terminated`] is entered only from
/// [`ActorState::Dispatching`], on the signal to terminate, and is never
/// left; `post_run` runs only after a handler that did not ask to
/// terminate.
pub proof fn lemma_terminated_is_terminal<M>(state: ActorState, event: Event<M>)
    ensures
        transition(ActorState::Terminated, event) is None,
        transition(state, event) matches Some(taken) ==> (taken.next == ActorState::Terminated
            <==> (state == ActorState::Dispatching && handled(event) == Some(true))),
        transition(state, event) matches Some(taken) ==> (taken.action == Action::<M>::PostRun
            <==> (state == ActorState::Dispatching && handled(event) == Some(false))),
{
}

/// A run whose handlers first ask to terminate at `last` takes
/// `last + 1` cycles, runs `post_run` after each of them but that one, and
/// ends terminated.
pub proof fn lemma_run_until_terminate(signals: Seq<ShouldTerminate>, last: int)
    requires
        0 <= last < signals.len(),
        signals[last]@,
        forall|i: int| 0 <= i < last ==> !signals[i]@,
    ensures
        run(signals).cycles == last + 1,
        run(signals).post_runs == last,
        run(signals).state == ActorState::Terminated,
    decreases last,
{
    if last > 0 {
        let rest = signals.drop_first();
        assert(rest[last - 1] == signals[last]);
        assert forall|i: int| 0 <= i < last - 1 implies !rest[i]@ by {
            assert(rest[i] == signals[i + 1]);
        }
        lemma_run_until_terminate(rest, last - 1);
    }
}

/// A run whose handlers never ask to terminate is idle at the end of its
/// signals, with one `post_run` a cycle.
pub proof fn lemma_run_without_terminate(signals: Seq<ShouldTerminate>)
    requires
        forall|i: int| 0 <= i < signals.len() ==> !signals[i]@,
    ensures
        run(signals).cycles == signals.len(),
        run(signals).post_runs == signals.len(),
        run(signals).state == ActorState::Idle,
    decreases signals.len(),
{
    if signals.len() > 0 {
        let rest = signals.drop_first();
        assert forall|i: int| 0 <= i < rest.len() implies !rest[i]@ by {
            assert(rest[i] == signals[i + 1]);
        }
        lemma_run_without_terminate(rest);
    }
}

/// Decides what follows `event` in `state`: the next state and what to do
/// there, or nothing where the state does not wait for this event.
pub fn step<M>(state: ActorState, event: Event<M>) -> (taken: Option<Transition<M>>)
    ensures
        taken == transition(state, event),
{
    match state {
        ActorState::Idle => match event {
            Event::Wake => Some(Transition { next: ActorState::Receiving, action: Action::PreRun }),
            _ => None,
        },
        ActorState::Receiving => match event {
            Event::Message(message) => Some(
                Transition { next: ActorState::Dispatching, action: Action::Dispatch(message) },
            ),
            _ => None,
        },
        ActorState::Dispatching => match event {
            Event::Handled(signal) => {
                proof {
                    lemma_signal_round_trip(signal@);
                }
                if bool::from(signal) {
                    Some(Transition { next: ActorState::Terminated, action: Action::Stop })
                } else {
                    Some(Transition { next: ActorState::Idle, action: Action::PostRun })
                }
            },
            _ => None,
        },
        ActorState::Terminated => None,
    }
}

} // verus!
