//! What one download does, step by step.
//!
//! A session stands for one run of the downloader program. The work that has
//! to wait on the outside world (running the program, reading its output,
//! ending it) is carried out by whoever drives the session. The session
//! decides, on each thing that happened, what is to be done next and what the
//! host is told: that is [`transition`], and [`step`] computes it.

use vstd::prelude::*;
use crate::notification::{Notification, NotificationView};
use crate::outcome::TerminalOutcome;
use crate::progress::{parse_progress, progress_of, regex_captures, PROGRESS_PATTERN};

verus! {

/// How long a driver waits for a line of output before it reports that none
/// has come, in milliseconds. A download whose downloader prints nothing is
/// cancelled within this time.
pub const READ_PATIENCE_MILLIS: u64 = 250;

/// What a look at the control channel found.
#[derive(Clone, Copy, Debug, PartialEq, Eq, Structural)]
pub enum ControlPoll {
    /// A signal was waiting.
    Signalled,
    /// Nothing was waiting, and a signal can still come.
    Idle,
    /// Nothing was waiting, and no signal can come any more.
    Disconnected,
}

impl ControlPoll {
    /// A waiting signal asks for cancellation, and so does a channel that
    /// nobody can signal on any more.
    pub open spec fn requests_cancel(self) -> bool {
        self != ControlPoll::Idle
    }

    /// Whether the download is to be cancelled.
    pub fn is_cancel_request(&self) -> (cancel: bool)
        ensures
            cancel == self.requests_cancel(),
    {
        match self {
            ControlPoll::Idle => false,
            _ => true,
        }
    }
}

/// Where a session stands.
#[derive(Clone, Copy, Debug, PartialEq, Eq, Structural)]
pub enum SessionPhase {
    /// Nothing has been done yet.
    Created,
    /// The availability probe is running.
    Probing,
    /// The downloader is being started.
    Spawning,
    /// The downloader runs; the control channel is looked at next.
    Polling,
    /// The downloader runs; its next line of output is awaited.
    Reading,
    /// Cancellation was asked for; the downloader is being ended.
    Killing,
    /// The output has ended; the downloader's exit is awaited.
    Exiting,
    /// The session has ended.
    Finished(TerminalOutcome),
}

/// Something that happened to a session.
#[derive(Debug, PartialEq, Eq)]
pub enum SessionEvent {
    /// The driver is ready to work.
    Begin,
    /// The probe ran to its end; `available` tells whether it exited cleanly.
    ProbeExited { available: bool },
    /// The probe could not be run.
    ProbeFailed,
    /// The downloader has been started.
    Spawned,
    /// The downloader could not be started.
    SpawnFailed,
    /// The control channel was looked at.
    Control(ControlPoll),
    /// The downloader printed a line.
    Line(String),
    /// No line has come for [`READ_PATIENCE_MILLIS`]; the downloader still
    /// runs.
    Stalled,
    /// The downloader's output has ended, or can no longer be read.
    OutputClosed,
    /// The downloader has been ended by force and is gone.
    Killed,
    /// The downloader could not be ended by force; it may still run.
    KillFailed,
    /// The downloader has exited, with the code given if it left one.
    Exited(Option<i32>),
    /// The downloader's exit could not be awaited.
    WaitFailed,
}

/// What a [`SessionEvent`] holds.
pub ghost enum EventView {
    Begin,
    ProbeExited { available: bool },
    ProbeFailed,
    Spawned,
    SpawnFailed,
    Control(ControlPoll),
    Line(Seq<char>),
    Stalled,
    OutputClosed,
    Killed,
    KillFailed,
    Exited(Option<i32>),
    WaitFailed,
}

impl View for SessionEvent {
    type V = EventView;

    open spec fn view(&self) -> EventView {
        match self {
            SessionEvent::Begin => EventView::Begin,
            SessionEvent::ProbeExited { available } => EventView::ProbeExited {
                available: *available,
            },
            SessionEvent::ProbeFailed => EventView::ProbeFailed,
            SessionEvent::Spawned => EventView::Spawned,
            SessionEvent::SpawnFailed => EventView::SpawnFailed,
            SessionEvent::Control(poll) => EventView::Control(*poll),
            SessionEvent::Line(text) => EventView::Line(text@),
            SessionEvent::Stalled => EventView::Stalled,
            SessionEvent::OutputClosed => EventView::OutputClosed,
            SessionEvent::Killed => EventView::Killed,
            SessionEvent::KillFailed => EventView::KillFailed,
            SessionEvent::Exited(code) => EventView::Exited(*code),
            SessionEvent::WaitFailed => EventView::WaitFailed,
        }
    }
}

/// Something that a session asks its driver to do.
#[derive(Debug, PartialEq, Eq)]
pub enum SessionAction {
    /// Run the availability probe to its end.
    Probe,
    /// Hand the notification to the host interface.
    Notify(Notification),
    /// Start the downloader.
    Spawn,
    /// Read the next line of the downloader's output.
    ReadLine,
    /// End the downloader by force and, if that went through, wait until it
    /// is gone.
    Kill,
    /// Wait for the downloader to exit.
    AwaitExit,
    /// Remove the session's entry from the registry.
    Release,
}

/// What a [`SessionAction`] holds.
pub ghost enum ActionView {
    Probe,
    Notify(NotificationView),
    Spawn,
    ReadLine,
    Kill,
    AwaitExit,
    Release,
}

impl ActionView {
    /// Whether the action reports the end of the session to the host.
    pub open spec fn is_terminal(self) -> bool {
        self matches ActionView::Notify(notification) && notification.is_terminal()
    }

    /// Whether the action reports progress to the host.
    pub open spec fn is_progress(self) -> bool {
        self matches ActionView::Notify(notification) && notification is Progress
    }
}

impl View for SessionAction {
    type V = ActionView;

    open spec fn view(&self) -> ActionView {
        match self {
            SessionAction::Probe => ActionView::Probe,
            SessionAction::Notify(notification) => ActionView::Notify(notification@),
            SessionAction::Spawn => ActionView::Spawn,
            SessionAction::ReadLine => ActionView::ReadLine,
            SessionAction::Kill => ActionView::Kill,
            SessionAction::AwaitExit => ActionView::AwaitExit,
            SessionAction::Release => ActionView::Release,
        }
    }
}

impl DeepView for SessionAction {
    type V = ActionView;

    open spec fn deep_view(&self) -> ActionView {
        self@
    }
}

/// The two actions that end every session: the entry leaves the registry,
/// then the host learns the outcome.
pub open spec fn closing_actions(url: Seq<char>, outcome: TerminalOutcome) -> Seq<ActionView> {
    seq![
        ActionView::Release,
        ActionView::Notify(NotificationView::DownloadFinished { url, outcome }),
    ]
}

/// What the host is told about a line of output: the progress it reports, or
/// nothing if it is no progress line.
pub open spec fn line_actions(url: Seq<char>, text: Seq<char>) -> Seq<ActionView> {
    match progress_of(url, regex_captures(PROGRESS_PATTERN@, text)) {
        Some(progress) => seq![ActionView::Notify(NotificationView::Progress(progress))],
        None => seq![],
    }
}

/// The phase that a session for `url` enters when `event` happens in `phase`,
/// and the actions that it asks for, in order. An event that the phase does
/// not wait for changes nothing and asks for nothing. A downloader that could
/// not be ended by force is left to run: its own exit decides the outcome.
pub open spec fn transition(phase: SessionPhase, event: EventView, url: Seq<char>) -> (
    SessionPhase,
    Seq<ActionView>,
) {
    match (phase, event) {
        (SessionPhase::Created, EventView::Begin) => (
            SessionPhase::Probing,
            seq![ActionView::Probe],
        ),
        (SessionPhase::Probing, EventView::ProbeExited { available }) => if available {
            (
                SessionPhase::Spawning,
                seq![
                    ActionView::Notify(NotificationView::AvailabilityResult { url, available }),
                    ActionView::Spawn,
                ],
            )
        } else {
            (
                SessionPhase::Finished(TerminalOutcome::AvailabilityFailed),
                seq![ActionView::Notify(NotificationView::AvailabilityResult { url, available })]
                    + closing_actions(url, TerminalOutcome::AvailabilityFailed),
            )
        },
        (SessionPhase::Probing, EventView::ProbeFailed) => (
            SessionPhase::Finished(TerminalOutcome::AvailabilityFailed),
            closing_actions(url, TerminalOutcome::AvailabilityFailed),
        ),
        (SessionPhase::Spawning, EventView::Spawned) => (SessionPhase::Polling, seq![]),
        (SessionPhase::Spawning, EventView::SpawnFailed) => (
            SessionPhase::Finished(TerminalOutcome::ProcessError(None)),
            closing_actions(url, TerminalOutcome::ProcessError(None)),
        ),
        (SessionPhase::Polling, EventView::Control(poll)) => if poll.requests_cancel() {
            (SessionPhase::Killing, seq![ActionView::Kill])
        } else {
            (SessionPhase::Reading, seq![ActionView::ReadLine])
        },
        (SessionPhase::Reading, EventView::Line(text)) => (
            SessionPhase::Polling,
            line_actions(url, text),
        ),
        (SessionPhase::Reading, EventView::Stalled) => (SessionPhase::Polling, seq![]),
        (SessionPhase::Reading, EventView::OutputClosed) => (
            SessionPhase::Exiting,
            seq![ActionView::AwaitExit],
        ),
        (SessionPhase::Killing, EventView::Killed) => (
            SessionPhase::Finished(TerminalOutcome::Cancelled),
            closing_actions(url, TerminalOutcome::Cancelled),
        ),
        (SessionPhase::Killing, EventView::KillFailed) => (
            SessionPhase::Exiting,
            seq![ActionView::AwaitExit],
        ),
        (SessionPhase::Exiting, EventView::Exited(code)) => (
            SessionPhase::Finished(TerminalOutcome::of_exit(code)),
            closing_actions(url, TerminalOutcome::of_exit(code)),
        ),
        (SessionPhase::Exiting, EventView::WaitFailed) => (
            SessionPhase::Finished(TerminalOutcome::ProcessError(None)),
            closing_actions(url, TerminalOutcome::ProcessError(None)),
        ),
        _ => (phase, seq![]),
    }
}

/// An empty list of actions.
fn nothing() -> (actions: Vec<SessionAction>)
    ensures
        actions.deep_view() == Seq::<ActionView>::empty(),
{
    let actions: Vec<SessionAction> = Vec::new();
    assert(actions.deep_view() =~= Seq::<ActionView>::empty());
    actions
}

/// Puts `action` at the end of `actions`.
fn then(actions: Vec<SessionAction>, action: SessionAction) -> (longer: Vec<SessionAction>)
    ensures
        longer.deep_view() == actions.deep_view().push(action@),
{
    let mut longer = actions;
    longer.push(action);
    assert(longer.deep_view() =~= actions.deep_view().push(action@));
    longer
}

/// A list of one action.
fn single(action: SessionAction) -> (actions: Vec<SessionAction>)
    ensures
        actions.deep_view() == seq![action@],
{
    let actions = then(nothing(), action);
    assert(actions.deep_view() =~= seq![action@]);
    actions
}

/// Puts the two actions that end a session at the end of `actions`.
fn close(actions: Vec<SessionAction>, url: &str, outcome: TerminalOutcome) -> (next: (
    SessionPhase,
    Vec<SessionAction>,
))
    ensures
        next.0 == SessionPhase::Finished(outcome),
        next.1.deep_view() == actions.deep_view() + closing_actions(url@, outcome),
{
    let released = then(actions, SessionAction::Release);
    let closed = then(
        released,
        SessionAction::Notify(Notification::DownloadFinished { url: url.to_owned(), outcome }),
    );
    assert(closed.deep_view() =~= actions.deep_view() + closing_actions(url@, outcome));
    (SessionPhase::Finished(outcome), closed)
}

/// Computes [`transition`]: the next phase of a session for `url` and the
/// actions that it asks its driver for, in order.
pub fn step(phase: SessionPhase, event: &SessionEvent, url: &str) -> (next: (
    SessionPhase,
    Vec<SessionAction>,
))
    ensures
        next.0 == transition(phase, event@, url@).0,
        next.1.deep_view() == transition(phase, event@, url@).1,
{
    match (phase, event) {
        (SessionPhase::Created, SessionEvent::Begin) => (
            SessionPhase::Probing,
            single(SessionAction::Probe),
        ),
        (SessionPhase::Probing, SessionEvent::ProbeExited { available }) => {
            let report = single(
                SessionAction::Notify(
                    Notification::AvailabilityResult { url: url.to_owned(), available: *available },
                ),
            );
            if *available {
                let actions = then(report, SessionAction::Spawn);
                assert(actions.deep_view() =~= transition(phase, event@, url@).1);
                (SessionPhase::Spawning, actions)
            } else {
                close(report, url, TerminalOutcome::AvailabilityFailed)
            }
        },
        (SessionPhase::Probing, SessionEvent::ProbeFailed) => close(
            nothing(),
            url,
            TerminalOutcome::AvailabilityFailed,
        ),
        (SessionPhase::Spawning, SessionEvent::Spawned) => (SessionPhase::Polling, nothing()),
        (SessionPhase::Spawning, SessionEvent::SpawnFailed) => close(
            nothing(),
            url,
            TerminalOutcome::ProcessError(None),
        ),
        (SessionPhase::Polling, SessionEvent::Control(poll)) => {
            if poll.is_cancel_request() {
                (SessionPhase::Killing, single(SessionAction::Kill))
            } else {
                (SessionPhase::Reading, single(SessionAction::ReadLine))
            }
        },
        (SessionPhase::Reading, SessionEvent::Line(text)) => {
            match parse_progress(url, text.as_str()) {
                Some(progress) => (
                    SessionPhase::Polling,
                    single(SessionAction::Notify(Notification::Progress(progress))),
                ),
                None => (SessionPhase::Polling, nothing()),
            }
        },
        (SessionPhase::Reading, SessionEvent::Stalled) => (SessionPhase::Polling, nothing()),
        (SessionPhase::Reading, SessionEvent::OutputClosed) => (
            SessionPhase::Exiting,
            single(SessionAction::AwaitExit),
        ),
        (SessionPhase::Killing, SessionEvent::Killed) => close(
            nothing(),
            url,
            TerminalOutcome::Cancelled,
        ),
        (SessionPhase::Killing, SessionEvent::KillFailed) => (
            SessionPhase::Exiting,
            single(SessionAction::AwaitExit),
        ),
        (SessionPhase::Exiting, SessionEvent::Exited(code)) => close(
            nothing(),
            url,
            TerminalOutcome::from_exit(*code),
        ),
        (SessionPhase::Exiting, SessionEvent::WaitFailed) => close(
            nothing(),
            url,
            TerminalOutcome::ProcessError(None),
        ),
        _ => (phase, nothing()),
    }
}

/// The phase that a session for `url` has reached, and all the actions that it
/// has asked for, once `events` have happened to it one after the other,
/// starting in `phase`.
pub open spec fn run(phase: SessionPhase, events: Seq<EventView>, url: Seq<char>) -> (
    SessionPhase,
    Seq<ActionView>,
)
    decreases events.len(),
{
    if events.len() == 0 {
        (phase, Seq::<ActionView>::empty())
    } else {
        let before = run(phase, events.drop_last(), url);
        let last = transition(before.0, events.last(), url);
        (last.0, before.1 + last.1)
    }
}

/// One more event takes a run one transition further.
pub proof fn lemma_run_push(
    phase: SessionPhase,
    events: Seq<EventView>,
    event: EventView,
    url: Seq<char>,
)
    ensures
        run(phase, events.push(event), url).0 == transition(
            run(phase, events, url).0,
            event,
            url,
        ).0,
        run(phase, events.push(event), url).1 == run(phase, events, url).1 + transition(
            run(phase, events, url).0,
            event,
            url,
        ).1,
{
    let longer = events.push(event);
    assert(longer.drop_last() =~= events);
    assert(longer.last() == event);
}

/// Whether `event` is a look at the control channel that asks for
/// cancellation.
pub open spec fn is_cancel_request(event: EventView) -> bool {
    event matches EventView::Control(poll) && poll.requests_cancel()
}

/// What holds of a session's phase and of everything it has asked for so
/// far: as long as it has not ended, it has neither released its entry nor
/// reported an outcome; once it has ended, its last two actions were to
/// release the entry and to report the outcome, and it did neither before.
pub open spec fn orderly(phase: SessionPhase, actions: Seq<ActionView>, url: Seq<char>) -> bool {
    match phase {
        SessionPhase::Finished(outcome) => {
            &&& outcome.wf()
            &&& actions.len() >= 2
            &&& actions[actions.len() - 2] == ActionView::Release
            &&& actions[actions.len() - 1] == ActionView::Notify(
                NotificationView::DownloadFinished { url, outcome },
            )
            &&& forall|i: int|
                0 <= i < actions.len() - 2 ==> !(#[trigger] actions[i]).is_terminal() && actions[i]
                    != ActionView::Release
        },
        _ => forall|i: int|
            0 <= i < actions.len() ==> !(#[trigger] actions[i]).is_terminal() && actions[i]
                != ActionView::Release,
    }
}

/// A session that has ended stays as it is and asks for nothing more,
/// whatever happens.
pub proof fn finished_is_final(outcome: TerminalOutcome, event: EventView, url: Seq<char>)
    ensures
        transition(SessionPhase::Finished(outcome), event, url) == (
            SessionPhase::Finished(outcome),
            Seq::<ActionView>::empty(),
        ),
{
}

/// One step keeps a session orderly.
proof fn lemma_step_orderly(
    phase: SessionPhase,
    actions: Seq<ActionView>,
    event: EventView,
    url: Seq<char>,
)
    requires
        orderly(phase, actions, url),
    ensures
        orderly(transition(phase, event, url).0, actions + transition(phase, event, url).1, url),
{
    let next = transition(phase, event, url);
    let all = actions + next.1;
    if phase is Finished {
        assert(all =~= actions);
    } else {
        assert forall|i: int| 0 <= i < actions.len() implies all[i] == actions[i] by {}
        assert forall|i: int| actions.len() <= i < all.len() implies all[i] == next.1[i
            - actions.len()] by {}
        match next.0 {
            SessionPhase::Finished(outcome) => {
                let closing = closing_actions(url, outcome);
                assert(closing.len() == 2);
                assert(next.1.len() >= 2);
                assert(next.1[next.1.len() - 2] == closing[0]);
                assert(next.1[next.1.len() - 1] == closing[1]);
                assert(all[all.len() - 2] == ActionView::Release);
                assert forall|i: int| 0 <= i < all.len() - 2 implies !(#[trigger] all[i]).is_terminal()
                    && all[i] != ActionView::Release by {
                    if i >= actions.len() {
                        assert(all[i] == next.1[i - actions.len()]);
                    }
                }
            },
            _ => {
                assert forall|i: int| 0 <= i < all.len() implies !(#[trigger] all[i]).is_terminal()
                    && all[i] != ActionView::Release by {
                    if i >= actions.len() {
                        assert(all[i] == next.1[i - actions.len()]);
                    }
                }
            },
        }
    }
}

/// Every session is orderly, whatever happens to it and in whatever order.
pub proof fn sessions_are_orderly(events: Seq<EventView>, url: Seq<char>)
    ensures
        orderly(
            run(SessionPhase::Created, events, url).0,
            run(SessionPhase::Created, events, url).1,
            url,
        ),
    decreases events.len(),
{
    if events.len() > 0 {
        sessions_are_orderly(events.drop_last(), url);
        let before = run(SessionPhase::Created, events.drop_last(), url);
        lemma_step_orderly(before.0, before.1, events.last(), url);
    }
}

/// A session reports its outcome exactly once, at its end: before it has
/// ended it has reported none, and once it has ended the report is the last
/// thing it ever asked for, so that no progress report follows it.
pub proof fn outcome_reported_exactly_once(events: Seq<EventView>, url: Seq<char>)
    ensures
        ({
            let (phase, actions) = run(SessionPhase::Created, events, url);
            &&& phase is Finished <==> exists|i: int|
                0 <= i < actions.len() && (#[trigger] actions[i]).is_terminal()
            &&& forall|i: int, j: int|
                0 <= i < actions.len() && 0 <= j < actions.len() && (#[trigger] actions[i]).is_terminal()
                    && (#[trigger] actions[j]).is_terminal() ==> i == j
            &&& forall|i: int, j: int|
                0 <= i < j < actions.len() && (#[trigger] actions[i]).is_terminal() ==> !(
                #[trigger] actions[j]).is_progress()
        }),
{
    sessions_are_orderly(events, url);
    let (phase, actions) = run(SessionPhase::Created, events, url);
    if phase is Finished {
        assert(actions[actions.len() - 1].is_terminal());
    }
}

/// A session releases its registry entry exactly once, at its end, and does
/// so before it reports its outcome.
pub proof fn entry_released_before_outcome(events: Seq<EventView>, url: Seq<char>)
    ensures
        ({
            let (phase, actions) = run(SessionPhase::Created, events, url);
            &&& phase matches SessionPhase::Finished(outcome) ==> actions.len() >= 2
                && actions[actions.len() - 2] == ActionView::Release && actions[actions.len() - 1]
                == ActionView::Notify(NotificationView::DownloadFinished { url, outcome })
            &&& phase is Finished <==> exists|i: int|
                0 <= i < actions.len() && #[trigger] actions[i] == ActionView::Release
            &&& forall|i: int, j: int|
                0 <= i < actions.len() && 0 <= j < actions.len() && #[trigger] actions[i]
                    == ActionView::Release && #[trigger] actions[j] == ActionView::Release ==> i
                    == j
        }),
{
    sessions_are_orderly(events, url);
    let (phase, actions) = run(SessionPhase::Created, events, url);
    if phase is Finished {
        assert(actions[actions.len() - 2] == ActionView::Release);
        assert(actions[actions.len() - 1].is_terminal());
    }
}

/// A session ends as cancelled only if a look at its own control channel
/// asked for it.
pub proof fn cancelled_only_on_request(events: Seq<EventView>, url: Seq<char>)
    ensures
        ({
            let phase = run(SessionPhase::Created, events, url).0;
            phase == SessionPhase::Killing || phase == SessionPhase::Finished(
                TerminalOutcome::Cancelled,
            ) ==> exists|i: int| 0 <= i < events.len() && is_cancel_request(#[trigger] events[i])
        }),
    decreases events.len(),
{
    if events.len() > 0 {
        let earlier = events.drop_last();
        cancelled_only_on_request(earlier, url);
        let before = run(SessionPhase::Created, earlier, url).0;
        let phase = run(SessionPhase::Created, events, url).0;
        if phase == SessionPhase::Killing || phase == SessionPhase::Finished(
            TerminalOutcome::Cancelled,
        ) {
            if before == SessionPhase::Killing || before == SessionPhase::Finished(
                TerminalOutcome::Cancelled,
            ) {
                let i = choose|i: int| 0 <= i < earlier.len() && is_cancel_request(#[trigger] earlier[i]);
                assert(events[i] == earlier[i]);
            } else {
                assert(is_cancel_request(events[events.len() - 1]));
            }
        }
    }
}


} // verus!
