//! The control loop without its input and output: the order in which it
//! reads, reports, writes and sleeps, and when it ends. The caller carries
//! out each command and hands back what came of it.

use vstd::prelude::*;

use crate::behaviour::ChargeBehaviour;
use crate::journal::Severity;
use crate::policy::next_behaviour;
use crate::round::{tick, tick_of, Tick};

verus! {

/// The seconds to sleep between two rounds.
pub const POLL_INTERVAL_SECS: u64 = 60;

/// What the loop is waiting for.
#[derive(Debug, Clone, Copy, PartialEq, Eq, Structural)]
pub enum State {
    /// The behaviour in force at the start is being read.
    Starting,
    /// A round has begun: the capacity is being read.
    ReadingCapacity,
    /// The capacity is known: the behaviour in force is being read.
    ReadingBehaviour { capacity: i8 },
    /// The round asks for a change, which is being written.
    Writing,
    /// The round is over: the loop sleeps.
    Sleeping,
    /// The loop has ended.
    Stopped,
}

/// What came of a command.
#[derive(Debug, Clone, Copy, PartialEq, Eq, Structural)]
pub enum Event {
    /// The capacity was read.
    CapacityRead(i8),
    /// The behaviour in force was read.
    BehaviourRead(ChargeBehaviour),
    /// The behaviour was written.
    Written,
    /// The sleep is over.
    Slept,
    /// The read or the write could not be done.
    Failed,
}

/// What the caller is to do next.
#[derive(Debug, Clone, Copy, PartialEq, Eq, Structural)]
pub enum Command {
    /// Read the capacity.
    ReadCapacity,
    /// Read the behaviour in force.
    ReadBehaviour,
    /// Write this behaviour.
    Write(ChargeBehaviour),
    /// Sleep for so many seconds.
    Sleep { seconds: u64 },
    /// End the process with the failure that stopped the loop.
    Abort,
}

/// What the loop has to say.
#[derive(Debug, Clone, Copy, PartialEq, Eq, Structural)]
pub enum Report {
    /// The loop starts, with this behaviour in force.
    Started { behaviour: ChargeBehaviour },
    /// A round was decided.
    Round(Tick),
}

/// One step of the loop: where it stands now, what it reports, and what it
/// asks for. The report comes before the command.
#[derive(Debug, Clone, Copy, PartialEq, Eq, Structural)]
pub struct Step {
    pub state: State,
    pub report: Option<Report>,
    pub command: Command,
}

/// The step that ends the loop.
pub open spec fn stop() -> Step {
    Step { state: State::Stopped, report: None, command: Command::Abort }
}

/// The step with which the loop begins: the behaviour in force is read, to
/// be reported.
pub open spec fn first_step() -> Step {
    Step { state: State::Starting, report: None, command: Command::ReadBehaviour }
}

/// The step that follows `event` in `state`.
///
/// The start reports the behaviour in force. A round then reads the
/// capacity and the behaviour, reports what it decided, writes the new
/// behaviour where there is one, and sleeps; the next round follows the
/// sleep. A failure ends the loop at once, and so does an event that the
/// state did not ask for.
pub open spec fn step_of(state: State, event: Event) -> Step {
    match (state, event) {
        (State::Starting, Event::BehaviourRead(behaviour)) => Step {
            state: State::ReadingCapacity,
            report: Some(Report::Started { behaviour }),
            command: Command::ReadCapacity,
        },
        (State::ReadingCapacity, Event::CapacityRead(capacity)) => Step {
            state: State::ReadingBehaviour { capacity },
            report: None,
            command: Command::ReadBehaviour,
        },
        (State::ReadingBehaviour { capacity }, Event::BehaviourRead(current)) => {
            let round = tick_of(capacity, current);
            match round.written() {
                Some(to) => Step {
                    state: State::Writing,
                    report: Some(Report::Round(round)),
                    command: Command::Write(to),
                },
                None => Step {
                    state: State::Sleeping,
                    report: Some(Report::Round(round)),
                    command: Command::Sleep { seconds: POLL_INTERVAL_SECS },
                },
            }
        },
        (State::Writing, Event::Written) => Step {
            state: State::Sleeping,
            report: None,
            command: Command::Sleep { seconds: POLL_INTERVAL_SECS },
        },
        (State::Sleeping, Event::Slept) => Step {
            state: State::ReadingCapacity,
            report: None,
            command: Command::ReadCapacity,
        },
        _ => stop(),
    }
}

impl Report {
    /// How serious the report is: the start is information, a round as
    /// [`Tick::severity`] says.
    pub fn severity(&self) -> (s: Severity)
        ensures
            s == (match *self {
                Report::Started { .. } => Severity::Info,
                Report::Round(round) => if round is Changed {
                    Severity::Info
                } else {
                    Severity::Debug
                },
            }),
    {
        match self {
            Report::Started { .. } => Severity::Info,
            Report::Round(round) => round.severity(),
        }
    }
}

/// Begins the loop.
pub fn start() -> (s: Step)
    ensures
        s == first_step(),
{
    Step { state: State::Starting, report: None, command: Command::ReadBehaviour }
}

/// Takes the loop one step on.
pub fn step(state: State, event: Event) -> (s: Step)
    ensures
        s == step_of(state, event),
        event is Failed || state is Stopped ==> s == stop(),
        s.command matches Command::Write(to) ==> state matches State::ReadingBehaviour { capacity }
            && event matches Event::BehaviourRead(current) && to == next_behaviour(
            capacity,
            current,
        ) && to != current,
        s.command matches Command::Sleep { seconds } ==> seconds == POLL_INTERVAL_SECS,
        s.command is Abort <==> s.state is Stopped,
{
    match (state, event) {
        (State::Starting, Event::BehaviourRead(behaviour)) => Step {
            state: State::ReadingCapacity,
            report: Some(Report::Started { behaviour }),
            command: Command::ReadCapacity,
        },
        (State::ReadingCapacity, Event::CapacityRead(capacity)) => Step {
            state: State::ReadingBehaviour { capacity },
            report: None,
            command: Command::ReadBehaviour,
        },
        (State::ReadingBehaviour { capacity }, Event::BehaviourRead(current)) => {
            let round = tick(capacity, current);
            match round.to_write() {
                Some(to) => Step {
                    state: State::Writing,
                    report: Some(Report::Round(round)),
                    command: Command::Write(to),
                },
                None => Step {
                    state: State::Sleeping,
                    report: Some(Report::Round(round)),
                    command: Command::Sleep { seconds: POLL_INTERVAL_SECS },
                },
            }
        },
        (State::Writing, Event::Written) => Step {
            state: State::Sleeping,
            report: None,
            command: Command::Sleep { seconds: POLL_INTERVAL_SECS },
        },
        (State::Sleeping, Event::Slept) => Step {
            state: State::ReadingCapacity,
            report: None,
            command: Command::ReadCapacity,
        },
        _ => Step { state: State::Stopped, report: None, command: Command::Abort },
    }
}

/// Whether `event` is what came of carrying out `command`.
pub open spec fn answers(command: Command, event: Event) -> bool {
    match (command, event) {
        (Command::ReadCapacity, Event::CapacityRead(_)) => true,
        (Command::ReadBehaviour, Event::BehaviourRead(_)) => true,
        (Command::Write(_), Event::Written) => true,
        (Command::Sleep { .. }, Event::Slept) => true,
        _ => false,
    }
}

/// Whether `step` is one that the loop takes while it runs: a state that
/// waits for what the command asks for.
pub open spec fn running(step: Step) -> bool {
    match (step.state, step.command) {
        (State::Starting, Command::ReadBehaviour) => true,
        (State::ReadingCapacity, Command::ReadCapacity) => true,
        (State::ReadingBehaviour { .. }, Command::ReadBehaviour) => true,
        (State::Writing, Command::Write(_)) => true,
        (State::Sleeping, Command::Sleep { seconds }) => seconds == POLL_INTERVAL_SECS,
        _ => false,
    }
}

/// The loop runs for as long as its commands are carried out: it begins
/// running, and from a running step the event that answers the command
/// leads to a running step again. Only a failure, or an event that does
/// not answer the command, ends it.
pub proof fn law_runs_until_failure(now: Step, event: Event)
    requires
        running(now),
    ensures
        running(first_step()),
        answers(now.command, event) ==> running(step_of(now.state, event)),
        !answers(now.command, event) ==> step_of(now.state, event) == stop(),
{
}

/// Where the loop stands after `events`, handed to it in turn from `state`.
pub open spec fn state_after(state: State, events: Seq<Event>) -> State
    decreases events.len(),
{
    if events.len() == 0 {
        state
    } else {
        step_of(state_after(state, events.drop_last()), events.last()).state
    }
}

/// A loop that has stopped stays stopped, whatever it is handed.
pub proof fn law_stopped_for_good(events: Seq<Event>)
    ensures
        state_after(State::Stopped, events) == State::Stopped,
    decreases events.len(),
{
    if events.len() > 0 {
        law_stopped_for_good(events.drop_last());
    }
}

/// A failure ends the loop in every state, with nothing reported and
/// nothing more asked for than to abort.
pub proof fn law_failure_stops(state: State)
    ensures
        step_of(state, Event::Failed) == stop(),
{
}

/// A round that finds the wanted behaviour in force reads twice, reports
/// the observation, writes nothing and sleeps; after the sleep the next
/// round begins.
pub proof fn law_quiet_round(capacity: i8, current: ChargeBehaviour)
    requires
        next_behaviour(capacity, current) == current,
    ensures
        ({
            let read = step_of(State::ReadingCapacity, Event::CapacityRead(capacity));
            let decided = step_of(read.state, Event::BehaviourRead(current));
            let slept = step_of(decided.state, Event::Slept);
            &&& read.command == Command::ReadBehaviour && read.report is None
            &&& decided.command == Command::Sleep { seconds: POLL_INTERVAL_SECS }
            &&& decided.report == Some(
                Report::Round(Tick::Unchanged { capacity, behaviour: current }),
            )
            &&& slept == Step {
                state: State::ReadingCapacity,
                report: None,
                command: Command::ReadCapacity,
            }
        }),
{
}

/// A round that asks for another behaviour reads twice, reports the change,
/// writes the new behaviour and sleeps; after the sleep the next round
/// begins.
pub proof fn law_changing_round(capacity: i8, current: ChargeBehaviour)
    requires
        next_behaviour(capacity, current) != current,
    ensures
        ({
            let to = next_behaviour(capacity, current);
            let read = step_of(State::ReadingCapacity, Event::CapacityRead(capacity));
            let decided = step_of(read.state, Event::BehaviourRead(current));
            let written = step_of(decided.state, Event::Written);
            let slept = step_of(written.state, Event::Slept);
            &&& read.command == Command::ReadBehaviour && read.report is None
            &&& decided.command == Command::Write(to)
            &&& decided.report == Some(Report::Round(Tick::Changed { capacity, from: current, to }))
            &&& written.command == Command::Sleep { seconds: POLL_INTERVAL_SECS }
            &&& written.report is None
            &&& slept == Step {
                state: State::ReadingCapacity,
                report: None,
                command: Command::ReadCapacity,
            }
        }),
{
}

} // verus!
