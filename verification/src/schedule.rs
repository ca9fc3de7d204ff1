//! The refresh schedule: one attempt at a time, a fixed pause after each.
//!
//! Waiting, collecting, rendering and publishing are the caller's work. The
//! scheduler is told what happened and says what to do next.

use crate::collect::FetchError;
use crate::model::StatusSnapshot;
use crate::report::{make_text, report_text};
use vstd::prelude::*;
use vstd::string::StringExecFns;

verus! {

/// The path under which the card is published.
pub const CARD_PATH: &'static str = "/kcard.png";

/// The content type under which the card is published.
pub const CARD_CONTENT_TYPE: &'static str = "image/png";

/// How often a deployment refreshes its card.
#[derive(Debug, Clone, Copy, PartialEq, Eq, Structural)]
pub enum Profile {
    /// Once an hour.
    Hourly,
    /// Every ten minutes.
    Frequent,
}

/// Where the scheduler stands. An attempt is in progress in every phase but
/// `Idle`.
#[derive(Debug, Clone, Copy, PartialEq, Eq, Structural)]
pub enum Phase {
    /// Waiting for the next attempt.
    Idle,
    /// An attempt is collecting the node's state.
    Collecting,
    /// An attempt has its report and is rendering and publishing the card.
    Publishing,
}

/// The scheduler of one node.
#[derive(Debug, Clone, Copy, PartialEq, Eq, Structural)]
pub struct Scheduler {
    pub phase: Phase,
    /// The seconds to pause after an attempt.
    pub interval: u64,
}

/// Why an attempt failed.
#[derive(Debug, Clone, PartialEq, Eq)]
pub enum AttemptFailure {
    /// A collector failed, so there was nothing to render.
    Collect(FetchError),
    /// The card was not published: the publisher answered with an error, of
    /// which this is the text, or not at all.
    Publish { reason: String },
}

/// What the caller reports to the scheduler.
#[derive(Debug, PartialEq, Eq)]
pub enum Event {
    /// The process has started, or a pause is over.
    Wake,
    /// Collecting has ended, with a snapshot or with a failure.
    Collected(Result<StatusSnapshot, FetchError>),
    /// Rendering and publishing have ended: the card is out, or it is not,
    /// for the reason given.
    Published(Result<(), String>),
}

/// What the scheduler asks of the caller.
#[derive(Debug, Clone, PartialEq, Eq)]
pub enum Action {
    /// Collect the node's state and report the outcome.
    Collect,
    /// Render a card with this report, publish it, and report that.
    Publish { report: String },
    /// Pause, then wake the scheduler.
    Sleep { seconds: u64 },
    /// Report the failure of the attempt, pause, then wake the scheduler.
    ReportAndSleep { failure: AttemptFailure, seconds: u64 },
    /// Nothing: the event does not belong to the phase.
    Ignore,
}

/// The kinds of action.
pub enum ActionKind {
    Collect,
    Publish,
    Sleep,
    ReportAndSleep,
    Ignore,
}

impl Profile {
    /// The seconds between the end of one attempt and the start of the next.
    pub open spec fn seconds(self) -> u64 {
        match self {
            Profile::Hourly => 3600,
            Profile::Frequent => 600,
        }
    }

    /// The seconds between the end of one attempt and the start of the next.
    pub fn interval(self) -> (r: u64)
        ensures
            r == self.seconds(),
    {
        match self {
            Profile::Hourly => 3600,
            Profile::Frequent => 600,
        }
    }
}

impl AttemptFailure {
    /// The line that reports this failure.
    pub open spec fn report_line(self) -> Seq<char> {
        match self {
            AttemptFailure::Collect(error) => error.report_line(),
            AttemptFailure::Publish { reason } => "error publishing card: "@ + reason@,
        }
    }

    /// Writes the line that reports this failure.
    pub fn describe(&self) -> (line: String)
        ensures
            line@ == self.report_line(),
    {
        match self {
            AttemptFailure::Collect(error) => error.describe(),
            AttemptFailure::Publish { reason } => {
                let mut line = "error publishing card: ".to_owned();
                line.append(reason.as_str());
                line
            },
        }
    }
}

impl Scheduler {
    /// The phase after `event`.
    pub open spec fn phase_after(self, event: Event) -> Phase {
        match (self.phase, event) {
            (Phase::Idle, Event::Wake) => Phase::Collecting,
            (Phase::Collecting, Event::Collected(Ok(_))) => Phase::Publishing,
            (Phase::Collecting, Event::Collected(Err(_))) => Phase::Idle,
            (Phase::Publishing, Event::Published(_)) => Phase::Idle,
            _ => self.phase,
        }
    }

    /// The scheduler after `event`.
    pub open spec fn after(self, event: Event) -> Scheduler {
        Scheduler { phase: self.phase_after(event), interval: self.interval }
    }

    /// The kind of action that answers `event`.
    pub open spec fn answer(self, event: Event) -> ActionKind {
        match (self.phase, event) {
            (Phase::Idle, Event::Wake) => ActionKind::Collect,
            (Phase::Collecting, Event::Collected(Ok(_))) => ActionKind::Publish,
            (Phase::Collecting, Event::Collected(Err(_))) => ActionKind::ReportAndSleep,
            (Phase::Publishing, Event::Published(Ok(_))) => ActionKind::Sleep,
            (Phase::Publishing, Event::Published(Err(_))) => ActionKind::ReportAndSleep,
            _ => ActionKind::Ignore,
        }
    }

    /// The failure that `event` reports: that of a collector, or that of
    /// the publisher.
    pub open spec fn failure_of(event: Event) -> Option<AttemptFailure> {
        match event {
            Event::Collected(Err(error)) => Some(AttemptFailure::Collect(error)),
            Event::Published(Err(reason)) => Some(AttemptFailure::Publish { reason }),
            _ => None,
        }
    }

    /// `action` is the answer to `event`: of the right kind, with the report
    /// of the snapshot, the failure as it came, and the full pause.
    pub open spec fn answers(self, event: Event, action: Action) -> bool {
        match self.answer(event) {
            ActionKind::Collect => action is Collect,
            ActionKind::Publish => action matches Action::Publish { report }
                && event matches Event::Collected(Ok(snapshot)) && report@ == report_text(
                snapshot@,
            ),
            ActionKind::ReportAndSleep => Scheduler::failure_of(event) matches Some(failure)
                && action == (Action::ReportAndSleep { failure, seconds: self.interval }),
            ActionKind::Sleep => action == (Action::Sleep { seconds: self.interval }),
            ActionKind::Ignore => action is Ignore,
        }
    }

    /// An attempt is in progress.
    pub open spec fn refreshing(self) -> bool {
        self.phase != Phase::Idle
    }

    /// The scheduler after these events, one after the other.
    pub open spec fn run(self, events: Seq<Event>) -> Scheduler
        decreases events.len(),
    {
        if events.len() == 0 {
            self
        } else {
            self.after(events[0]).run(events.drop_first())
        }
    }

    /// How many actions of `kind` answer these events.
    pub open spec fn emitted(self, events: Seq<Event>, kind: ActionKind) -> nat
        decreases events.len(),
    {
        if events.len() == 0 {
            0
        } else {
            let rest = self.after(events[0]).emitted(events.drop_first(), kind);
            if self.answer(events[0]) == kind {
                rest + 1
            } else {
                rest
            }
        }
    }

    /// A scheduler that waits for its first wake.
    pub fn new(profile: Profile) -> (r: Scheduler)
        ensures
            r == (Scheduler { phase: Phase::Idle, interval: profile.seconds() }),
    {
        Scheduler { phase: Phase::Idle, interval: profile.interval() }
    }

    /// Whether an attempt is in progress.
    pub fn is_refreshing(&self) -> (r: bool)
        ensures
            r == self.refreshing(),
    {
        match self.phase {
            Phase::Idle => false,
            _ => true,
        }
    }

    /// Takes an event and says what to do. A wake in the idle phase starts
    /// an attempt. A snapshot is turned into its report, to be rendered and
    /// published; a failure of a collector ends the attempt with nothing
    /// published. A failure of the publisher ends it too. Every failure is
    /// handed back to be reported, and however the attempt ends, the full
    /// pause follows. An event that does not belong to the phase changes
    /// nothing.
    pub fn step(self, event: Event) -> (r: (Scheduler, Action))
        ensures
            r.0 == self.after(event),
            self.answers(event, r.1),
    {
        match (self.phase, event) {
            (Phase::Idle, Event::Wake) => (
                Scheduler { phase: Phase::Collecting, interval: self.interval },
                Action::Collect,
            ),
            (Phase::Collecting, Event::Collected(Ok(snapshot))) => (
                Scheduler { phase: Phase::Publishing, interval: self.interval },
                Action::Publish { report: make_text(&snapshot) },
            ),
            (Phase::Collecting, Event::Collected(Err(error))) => (
                Scheduler { phase: Phase::Idle, interval: self.interval },
                Action::ReportAndSleep {
                    failure: AttemptFailure::Collect(error),
                    seconds: self.interval,
                },
            ),
            (Phase::Publishing, Event::Published(Ok(_))) => (
                Scheduler { phase: Phase::Idle, interval: self.interval },
                Action::Sleep { seconds: self.interval },
            ),
            (Phase::Publishing, Event::Published(Err(reason))) => (
                Scheduler { phase: Phase::Idle, interval: self.interval },
                Action::ReportAndSleep {
                    failure: AttemptFailure::Publish { reason },
                    seconds: self.interval,
                },
            ),
            _ => (self, Action::Ignore),
        }
    }
}

/// How one attempt goes.
pub enum Attempt {
    /// A collector fails.
    CollectFailed(FetchError),
    /// The snapshot is there, and publishing fails for this reason.
    PublishFailed(StatusSnapshot, String),
    /// The snapshot is there, and its card is published.
    Published(StatusSnapshot),
}

/// The events of one tick of the clock: the wake, the end of collecting,
/// and the end of publishing where there was something to publish.
pub open spec fn tick(attempt: Attempt) -> Seq<Event> {
    match attempt {
        Attempt::CollectFailed(error) => seq![Event::Wake, Event::Collected(Err(error))],
        Attempt::PublishFailed(snapshot, reason) => seq![
            Event::Wake,
            Event::Collected(Ok(snapshot)),
            Event::Published(Err(reason)),
        ],
        Attempt::Published(snapshot) => seq![
            Event::Wake,
            Event::Collected(Ok(snapshot)),
            Event::Published(Ok(())),
        ],
    }
}

/// The events of consecutive ticks, one for each attempt.
pub open spec fn ticks(attempts: Seq<Attempt>) -> Seq<Event>
    decreases attempts.len(),
{
    if attempts.len() == 0 {
        Seq::empty()
    } else {
        ticks(attempts.drop_last()) + tick(attempts.last())
    }
}

/// The number of attempts in which every collector delivers.
pub open spec fn collected(attempts: Seq<Attempt>) -> nat
    decreases attempts.len(),
{
    if attempts.len() == 0 {
        0
    } else if attempts.last() is CollectFailed {
        collected(attempts.drop_last())
    } else {
        collected(attempts.drop_last()) + 1
    }
}

/// The number of attempts that fail, in collecting or in publishing.
pub open spec fn failed(attempts: Seq<Attempt>) -> nat
    decreases attempts.len(),
{
    if attempts.len() == 0 {
        0
    } else if attempts.last() is Published {
        failed(attempts.drop_last())
    } else {
        failed(attempts.drop_last()) + 1
    }
}

/// Running two stretches of events one after the other is running them as one.
pub proof fn lemma_run_append(state: Scheduler, first: Seq<Event>, second: Seq<Event>, kind: ActionKind)
    ensures
        state.run(first + second) == state.run(first).run(second),
        state.emitted(first + second, kind) == state.emitted(first, kind) + state.run(first).emitted(
            second,
            kind,
        ),
    decreases first.len(),
{
    if first.len() == 0 {
        assert(first + second =~= second);
    } else {
        assert((first + second)[0] == first[0]);
        assert((first + second).drop_first() =~= first.drop_first() + second);
        lemma_run_append(state.after(first[0]), first.drop_first(), second, kind);
    }
}

/// Attempts never overlap: whatever events come in, and in whatever order,
/// the attempts that were started are the attempts that have ended, and one
/// more while an attempt is in progress.
pub proof fn lemma_attempts_never_overlap(state: Scheduler, events: Seq<Event>)
    ensures
        state.emitted(events, ActionKind::Collect) + (if state.refreshing() {
            1nat
        } else {
            0nat
        }) == state.emitted(events, ActionKind::Sleep) + state.emitted(
            events,
            ActionKind::ReportAndSleep,
        ) + (if state.run(events).refreshing() {
            1nat
        } else {
            0nat
        }),
    decreases events.len(),
{
    if events.len() > 0 {
        lemma_attempts_never_overlap(state.after(events[0]), events.drop_first());
    }
}

/// Over any number of consecutive ticks an idle scheduler starts exactly one
/// attempt for each tick, asks for a card to be published once for each
/// snapshot and never after a failed collector, reports each failure of a
/// collector or of the publisher once, pauses once after each attempt
/// however it ended, and is idle again at the end.
pub proof fn lemma_one_attempt_per_tick(state: Scheduler, attempts: Seq<Attempt>)
    requires
        state.phase == Phase::Idle,
    ensures
        state.run(ticks(attempts)) == state,
        state.emitted(ticks(attempts), ActionKind::Collect) == attempts.len(),
        state.emitted(ticks(attempts), ActionKind::Publish) == collected(attempts),
        state.emitted(ticks(attempts), ActionKind::ReportAndSleep) == failed(attempts),
        state.emitted(ticks(attempts), ActionKind::Sleep) + state.emitted(
            ticks(attempts),
            ActionKind::ReportAndSleep,
        ) == attempts.len(),
        state.emitted(ticks(attempts), ActionKind::Ignore) == 0,
    decreases attempts.len(),
{
    if attempts.len() > 0 {
        let before = ticks(attempts.drop_last());
        let last = tick(attempts.last());
        lemma_one_attempt_per_tick(state, attempts.drop_last());
        lemma_run_append(state, before, last, ActionKind::Collect);
        lemma_run_append(state, before, last, ActionKind::Publish);
        lemma_run_append(state, before, last, ActionKind::Sleep);
        lemma_run_append(state, before, last, ActionKind::ReportAndSleep);
        lemma_run_append(state, before, last, ActionKind::Ignore);
        lemma_tick(state, attempts.last());
    }
}

/// What one tick does to an idle scheduler.
proof fn lemma_tick(state: Scheduler, attempt: Attempt)
    requires
        state.phase == Phase::Idle,
    ensures
        state.run(tick(attempt)) == state,
        state.emitted(tick(attempt), ActionKind::Collect) == 1,
        state.emitted(tick(attempt), ActionKind::Publish) == (if attempt is CollectFailed {
            0nat
        } else {
            1nat
        }),
        state.emitted(tick(attempt), ActionKind::Sleep) == (if attempt is Published {
            1nat
        } else {
            0nat
        }),
        state.emitted(tick(attempt), ActionKind::ReportAndSleep) == (if attempt is Published {
            0nat
        } else {
            1nat
        }),
        state.emitted(tick(attempt), ActionKind::Ignore) == 0,
{
    reveal_with_fuel(Scheduler::run, 5);
    reveal_with_fuel(Scheduler::emitted, 5);
    let events = tick(attempt);
    let e1 = events.drop_first();
    let e2 = e1.drop_first();
    let s1 = state.after(events[0]);
    let s2 = s1.after(e1[0]);
    if attempt is CollectFailed {
        assert(e2.len() == 0);
        assert(s2 == state);
    } else {
        let e3 = e2.drop_first();
        assert(e3.len() == 0);
        let s3 = s2.after(e2[0]);
        assert(s3 == state);
    }
}

} // verus!
