use yocto_actor::control::{step, Action, ActorState, Event, Transition};
use yocto_actor::ShouldTerminate;

/// What a run of the loop did.
#[derive(Debug, PartialEq)]
struct Account {
    pre_runs: usize,
    dispatched: Vec<u32>,
    post_runs: usize,
    end: ActorState,
}

/// Runs the loop on the messages given, with a handler that returns the
/// signal beside each message, until it stops or the messages end.
fn run(script: &[(u32, bool)]) -> Account {
    let mut account =
        Account { pre_runs: 0, dispatched: vec![], post_runs: 0, end: ActorState::Idle };
    let mut script = script.iter();
    let mut signal = false;
    let mut state = ActorState::Idle;
    let mut event = Event::Wake;
    loop {
        let taken = step(state, event).unwrap();
        state = taken.next;
        event = match taken.action {
            Action::PreRun => {
                let Some(&(message, answer)) = script.next() else {
                    break;
                };
                account.pre_runs += 1;
                signal = answer;
                Event::Message(message)
            }
            Action::Dispatch(message) => {
                account.dispatched.push(message);
                Event::Handled(ShouldTerminate::from(signal))
            }
            Action::PostRun => {
                account.post_runs += 1;
                Event::Wake
            }
            Action::Stop => break,
        };
    }
    account.end = state;
    account
}

#[test]
fn loop_ends_with_the_first_terminate_signal() {
    let account = run(&[(10, false), (20, true)]);
    assert_eq!(
        account,
        Account {
            pre_runs: 2,
            dispatched: vec![10, 20],
            post_runs: 1,
            end: ActorState::Terminated,
        }
    );
}

#[test]
fn loop_ignores_what_follows_the_terminate_signal() {
    let account = run(&[(1, false), (2, false), (3, true), (4, false), (5, true)]);
    assert_eq!(
        account,
        Account {
            pre_runs: 3,
            dispatched: vec![1, 2, 3],
            post_runs: 2,
            end: ActorState::Terminated,
        }
    );
}

#[test]
fn loop_terminates_in_its_first_cycle() {
    let account = run(&[(7, true)]);
    assert_eq!(
        account,
        Account { pre_runs: 1, dispatched: vec![7], post_runs: 0, end: ActorState::Terminated }
    );
}

#[test]
fn cycle_moves_through_the_states_in_order() {
    assert_eq!(
        step::<u32>(ActorState::Idle, Event::Wake),
        Some(Transition { next: ActorState::Receiving, action: Action::PreRun })
    );
    assert_eq!(
        step(ActorState::Receiving, Event::Message(5u32)),
        Some(Transition { next: ActorState::Dispatching, action: Action::Dispatch(5u32) })
    );
    assert_eq!(
        step::<u32>(ActorState::Dispatching, Event::Handled(ShouldTerminate::from(false))),
        Some(Transition { next: ActorState::Idle, action: Action::PostRun })
    );
    assert_eq!(
        step::<u32>(ActorState::Dispatching, Event::Handled(ShouldTerminate::from(true))),
        Some(Transition { next: ActorState::Terminated, action: Action::Stop })
    );
}

#[test]
fn terminated_is_never_left() {
    assert_eq!(step::<u32>(ActorState::Terminated, Event::Wake), None);
    assert_eq!(step(ActorState::Terminated, Event::Message(1u32)), None);
    assert_eq!(
        step::<u32>(ActorState::Terminated, Event::Handled(ShouldTerminate::from(false))),
        None
    );
    assert_eq!(
        step::<u32>(ActorState::Terminated, Event::Handled(ShouldTerminate::from(true))),
        None
    );
}

#[test]
fn event_out_of_turn_has_no_transition() {
    let stop = ShouldTerminate::from(true);
    assert_eq!(step(ActorState::Idle, Event::Message(1u32)), None);
    assert_eq!(step::<u32>(ActorState::Idle, Event::Handled(stop)), None);
    assert_eq!(step::<u32>(ActorState::Receiving, Event::Wake), None);
    assert_eq!(step::<u32>(ActorState::Receiving, Event::Handled(stop)), None);
    assert_eq!(step::<u32>(ActorState::Dispatching, Event::Wake), None);
    assert_eq!(step(ActorState::Dispatching, Event::Message(1u32)), None);
}

#[test]
fn message_reaches_the_handler_unchanged() {
    let message = String::from("payload");
    let taken = step(ActorState::Receiving, Event::Message(message.clone())).unwrap();
    assert_eq!(taken.action, Action::Dispatch(message));
}
