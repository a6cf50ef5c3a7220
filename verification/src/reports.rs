//! What the host is told over a whole download that nobody disturbs: that the
//! url is available, the progress that the downloader's output reports, line
//! by line, and the outcome. Lines that are no progress lines leave no trace.

use vstd::prelude::*;
use crate::notification::NotificationView;
use crate::outcome::TerminalOutcome;
use crate::progress::{progress_of, regex_captures, PROGRESS_PATTERN};
use crate::session::{
    lemma_run_push, line_actions, run, transition, ActionView, ControlPoll, EventView,
    SessionPhase,
};

verus! {

/// The notifications among `actions`, in order: what the host is told.
pub open spec fn notifications(actions: Seq<ActionView>) -> Seq<NotificationView>
    decreases actions.len(),
{
    if actions.len() == 0 {
        Seq::empty()
    } else {
        let earlier = notifications(actions.drop_last());
        match actions.last() {
            ActionView::Notify(notification) => earlier.push(notification),
            _ => earlier,
        }
    }
}

/// Whether `text` is a progress line.
pub open spec fn is_progress_line(url: Seq<char>, text: Seq<char>) -> bool {
    progress_of(url, regex_captures(PROGRESS_PATTERN@, text)) is Some
}

/// The progress reports that `lines` stand for, in order: one for each
/// progress line, none for any other line.
pub open spec fn decoded(url: Seq<char>, lines: Seq<Seq<char>>) -> Seq<NotificationView>
    decreases lines.len(),
{
    if lines.len() == 0 {
        Seq::empty()
    } else {
        let earlier = decoded(url, lines.drop_last());
        match progress_of(url, regex_captures(PROGRESS_PATTERN@, lines.last())) {
            Some(progress) => earlier.push(NotificationView::Progress(progress)),
            None => earlier,
        }
    }
}

/// What happens to a session while its downloader prints `lines` and nobody
/// cancels: each line is followed by a look at the control channel that
/// finds nothing.
pub open spec fn reading(lines: Seq<Seq<char>>) -> Seq<EventView>
    decreases lines.len(),
{
    if lines.len() == 0 {
        Seq::empty()
    } else {
        reading(lines.drop_last()).push(EventView::Line(lines.last())).push(
            EventView::Control(ControlPoll::Idle),
        )
    }
}

/// Everything that happens to a session whose url is available, whose
/// downloader prints `lines` and exits with `code`, and which nobody cancels.
pub open spec fn undisturbed(lines: Seq<Seq<char>>, code: Option<i32>) -> Seq<EventView> {
    seq![
        EventView::Begin,
        EventView::ProbeExited { available: true },
        EventView::Spawned,
        EventView::Control(ControlPoll::Idle),
    ] + reading(lines) + seq![EventView::OutputClosed, EventView::Exited(code)]
}

/// What the host is told of one more action.
proof fn lemma_notifications_push(actions: Seq<ActionView>, action: ActionView)
    ensures
        notifications(actions.push(action)) == match action {
            ActionView::Notify(notification) => notifications(actions).push(notification),
            _ => notifications(actions),
        },
{
    assert(actions.push(action).drop_last() =~= actions);
}

/// What the host is told of two runs of actions is what it is told of the
/// first, then what it is told of the second.
pub proof fn lemma_notifications_concat(first: Seq<ActionView>, second: Seq<ActionView>)
    ensures
        notifications(first + second) == notifications(first) + notifications(second),
    decreases second.len(),
{
    if second.len() == 0 {
        assert(first + second =~= first);
        assert(notifications(first) + notifications(second) =~= notifications(first));
    } else {
        let shorter = second.drop_last();
        lemma_notifications_concat(first, shorter);
        assert(first + second =~= (first + shorter).push(second.last()));
        assert(second =~= shorter.push(second.last()));
        lemma_notifications_push(first + shorter, second.last());
        lemma_notifications_push(shorter, second.last());
        match second.last() {
            ActionView::Notify(notification) => {
                assert((notifications(first) + notifications(shorter)).push(notification)
                    =~= notifications(first) + notifications(shorter).push(notification));
            },
            _ => {},
        }
    }
}

/// A run through two stretches of events is a run through the first, then a
/// run through the second from where the first ended.
pub proof fn lemma_run_concat(
    phase: SessionPhase,
    first: Seq<EventView>,
    second: Seq<EventView>,
    url: Seq<char>,
)
    ensures
        run(phase, first + second, url).0 == run(run(phase, first, url).0, second, url).0,
        run(phase, first + second, url).1 == run(phase, first, url).1 + run(
            run(phase, first, url).0,
            second,
            url,
        ).1,
    decreases second.len(),
{
    let middle = run(phase, first, url);
    if second.len() == 0 {
        assert(first + second =~= first);
        assert(middle.1 + run(middle.0, second, url).1 =~= middle.1);
    } else {
        let shorter = second.drop_last();
        lemma_run_concat(phase, first, shorter, url);
        assert(first + second =~= (first + shorter).push(second.last()));
        assert(second =~= shorter.push(second.last()));
        lemma_run_push(phase, first + shorter, second.last(), url);
        lemma_run_push(middle.0, shorter, second.last(), url);
        let step = transition(run(middle.0, shorter, url).0, second.last(), url);
        assert((middle.1 + run(middle.0, shorter, url).1) + step.1 =~= middle.1 + (run(
            middle.0,
            shorter,
            url,
        ).1 + step.1));
    }
}

/// The progress reports of a single line: one if it is a progress line, else
/// none.
proof fn lemma_decoded_one(url: Seq<char>, text: Seq<char>)
    ensures
        decoded(url, seq![text]) == match progress_of(
            url,
            regex_captures(PROGRESS_PATTERN@, text),
        ) {
            Some(progress) => seq![NotificationView::Progress(progress)],
            None => Seq::<NotificationView>::empty(),
        },
{
    let one = seq![text];
    let none = Seq::<Seq<char>>::empty();
    assert(one.drop_last() =~= none);
    assert(decoded(url, none) =~= Seq::<NotificationView>::empty());
    assert(one.last() == text);
    match progress_of(url, regex_captures(PROGRESS_PATTERN@, text)) {
        Some(progress) => {
            assert(decoded(url, one) =~= seq![NotificationView::Progress(progress)]);
        },
        None => {
            assert(decoded(url, one) =~= Seq::<NotificationView>::empty());
        },
    }
}

/// What the host is told of a line that is read: its progress report if it
/// is a progress line, else nothing. Either way the control channel is
/// looked at next.
pub proof fn line_is_reported_if_progress(url: Seq<char>, text: Seq<char>)
    ensures
        transition(SessionPhase::Reading, EventView::Line(text), url).0 == SessionPhase::Polling,
        notifications(transition(SessionPhase::Reading, EventView::Line(text), url).1) == decoded(
            url,
            seq![text],
        ),
        !is_progress_line(url, text) ==> transition(
            SessionPhase::Reading,
            EventView::Line(text),
            url,
        ).1 == Seq::<ActionView>::empty(),
{
    let actions = line_actions(url, text);
    let one = seq![text];
    assert(one.drop_last() =~= Seq::<Seq<char>>::empty());
    assert(decoded(url, one.drop_last()) =~= Seq::<NotificationView>::empty());
    match progress_of(url, regex_captures(PROGRESS_PATTERN@, text)) {
        Some(progress) => {
            let report = ActionView::Notify(NotificationView::Progress(progress));
            assert(actions =~= Seq::<ActionView>::empty().push(report));
            lemma_notifications_push(Seq::<ActionView>::empty(), report);
            assert(notifications(actions) =~= decoded(url, one));
        },
        None => {
            assert(notifications(actions) =~= decoded(url, one));
        },
    }
}

/// While the downloader prints and nobody cancels, the session stays with
/// the output, and the host is told the progress that the lines report and
/// nothing else.
pub proof fn lemma_reading_reports(url: Seq<char>, lines: Seq<Seq<char>>)
    ensures
        run(SessionPhase::Reading, reading(lines), url).0 == SessionPhase::Reading,
        notifications(run(SessionPhase::Reading, reading(lines), url).1) == decoded(url, lines),
    decreases lines.len(),
{
    if lines.len() > 0 {
        let earlier = lines.drop_last();
        let text = lines.last();
        lemma_reading_reports(url, earlier);
        let read = reading(earlier);
        let line = EventView::Line(text);
        let look = EventView::Control(ControlPoll::Idle);
        lemma_run_push(SessionPhase::Reading, read, line, url);
        lemma_run_push(SessionPhase::Reading, read.push(line), look, url);
        line_is_reported_if_progress(url, text);
        let before = run(SessionPhase::Reading, read, url).1;
        let told = transition(SessionPhase::Reading, line, url).1;
        let asked = transition(SessionPhase::Polling, look, url).1;
        assert(asked =~= Seq::<ActionView>::empty().push(ActionView::ReadLine));
        lemma_notifications_push(Seq::<ActionView>::empty(), ActionView::ReadLine);
        lemma_notifications_concat(before, told);
        lemma_notifications_concat(before + told, asked);
        assert(notifications(asked) =~= Seq::<NotificationView>::empty());
        lemma_decoded_one(url, text);
        assert(notifications(before + told + asked) =~= decoded(url, lines));
    } else {
        assert(reading(lines) =~= Seq::<EventView>::empty());
    }
}

/// The progress reports of lines in a row are those of the first lines, then
/// those of the rest.
pub proof fn lemma_decoded_concat(url: Seq<char>, first: Seq<Seq<char>>, second: Seq<Seq<char>>)
    ensures
        decoded(url, first + second) == decoded(url, first) + decoded(url, second),
    decreases second.len(),
{
    if second.len() == 0 {
        assert(first + second =~= first);
        assert(decoded(url, first) + decoded(url, second) =~= decoded(url, first));
    } else {
        let shorter = second.drop_last();
        lemma_decoded_concat(url, first, shorter);
        assert((first + second).drop_last() =~= first + shorter);
        assert((first + second).last() == second.last());
        match progress_of(url, regex_captures(PROGRESS_PATTERN@, second.last())) {
            Some(progress) => {
                assert((decoded(url, first) + decoded(url, shorter)).push(
                    NotificationView::Progress(progress),
                ) =~= decoded(url, first) + decoded(url, shorter).push(
                    NotificationView::Progress(progress),
                ));
            },
            None => {},
        }
    }
}

/// Over a download that nobody disturbs, the host is told, in this order:
/// that the url is available; one progress report for each progress line
/// that the downloader printed, in the order of the lines, each under the
/// download's url; and the outcome that the exit code stands for. The
/// session has then ended with that outcome.
pub proof fn undisturbed_download_reports(url: Seq<char>, lines: Seq<Seq<char>>, code: Option<i32>)
    ensures
        run(SessionPhase::Created, undisturbed(lines, code), url).0 == SessionPhase::Finished(
            TerminalOutcome::of_exit(code),
        ),
        notifications(run(SessionPhase::Created, undisturbed(lines, code), url).1) == seq![
            NotificationView::AvailabilityResult { url, available: true },
        ] + decoded(url, lines) + seq![
            NotificationView::DownloadFinished { url, outcome: TerminalOutcome::of_exit(code) },
        ],
        forall|i: int|
            0 <= i < decoded(url, lines).len() ==> (#[trigger] decoded(url, lines)[i]
                matches NotificationView::Progress(progress) && progress.url == url),
{
    let outcome = TerminalOutcome::of_exit(code);
    let available = NotificationView::AvailabilityResult { url, available: true };
    let finished = NotificationView::DownloadFinished { url, outcome };
    let nothing = Seq::<EventView>::empty();
    let none = Seq::<ActionView>::empty();
    let opening = seq![
        EventView::Begin,
        EventView::ProbeExited { available: true },
        EventView::Spawned,
        EventView::Control(ControlPoll::Idle),
    ];
    let closing = seq![EventView::OutputClosed, EventView::Exited(code)];

    // The opening: probe, start, first look at the control channel.
    let e1 = nothing.push(EventView::Begin);
    let e2 = e1.push(EventView::ProbeExited { available: true });
    let e3 = e2.push(EventView::Spawned);
    let e4 = e3.push(EventView::Control(ControlPoll::Idle));
    assert(opening =~= e4);
    lemma_run_push(SessionPhase::Created, nothing, EventView::Begin, url);
    lemma_run_push(SessionPhase::Created, e1, EventView::ProbeExited { available: true }, url);
    lemma_run_push(SessionPhase::Created, e2, EventView::Spawned, url);
    lemma_run_push(SessionPhase::Created, e3, EventView::Control(ControlPoll::Idle), url);
    let opened = run(SessionPhase::Created, opening, url);
    assert(opened.0 == SessionPhase::Reading);
    let a1 = none.push(ActionView::Probe);
    let a2 = a1.push(ActionView::Notify(available));
    let a3 = a2.push(ActionView::Spawn);
    let a4 = a3.push(ActionView::ReadLine);
    assert(opened.1 =~= a4);
    lemma_notifications_push(none, ActionView::Probe);
    lemma_notifications_push(a1, ActionView::Notify(available));
    lemma_notifications_push(a2, ActionView::Spawn);
    lemma_notifications_push(a3, ActionView::ReadLine);
    assert(notifications(opened.1) =~= seq![available]);

    // The output.
    lemma_reading_reports(url, lines);
    let read = run(SessionPhase::Reading, reading(lines), url);

    // The closing: end of output, exit.
    let c1 = nothing.push(EventView::OutputClosed);
    let c2 = c1.push(EventView::Exited(code));
    assert(closing =~= c2);
    lemma_run_push(SessionPhase::Reading, nothing, EventView::OutputClosed, url);
    lemma_run_push(SessionPhase::Reading, c1, EventView::Exited(code), url);
    let closed = run(SessionPhase::Reading, closing, url);
    assert(closed.0 == SessionPhase::Finished(outcome));
    let b1 = none.push(ActionView::AwaitExit);
    let b2 = b1.push(ActionView::Release);
    let b3 = b2.push(ActionView::Notify(finished));
    assert(closed.1 =~= b3);
    lemma_notifications_push(none, ActionView::AwaitExit);
    lemma_notifications_push(b1, ActionView::Release);
    lemma_notifications_push(b2, ActionView::Notify(finished));
    assert(notifications(closed.1) =~= seq![finished]);

    // All of it.
    lemma_run_concat(SessionPhase::Created, opening, reading(lines), url);
    lemma_run_concat(SessionPhase::Created, opening + reading(lines), closing, url);
    lemma_notifications_concat(opened.1, read.1);
    lemma_notifications_concat(opened.1 + read.1, closed.1);

    lemma_decoded_under_url(url, lines);
}

/// Every progress report of a download stands under the download's url.
pub proof fn lemma_decoded_under_url(url: Seq<char>, lines: Seq<Seq<char>>)
    ensures
        forall|i: int|
            0 <= i < decoded(url, lines).len() ==> (#[trigger] decoded(url, lines)[i]
                matches NotificationView::Progress(progress) && progress.url == url),
    decreases lines.len(),
{
    if lines.len() > 0 {
        lemma_decoded_under_url(url, lines.drop_last());
    }
}

/// Lines that are no progress lines leave no trace: a download whose output
/// has such a line in it tells the host exactly what the same download
/// without the line tells it, and ends as that one does.
pub proof fn other_lines_leave_no_trace(
    url: Seq<char>,
    before: Seq<Seq<char>>,
    text: Seq<char>,
    after: Seq<Seq<char>>,
    code: Option<i32>,
)
    requires
        !is_progress_line(url, text),
    ensures
        decoded(url, before + seq![text] + after) == decoded(url, before + after),
        run(SessionPhase::Created, undisturbed(before + seq![text] + after, code), url).0 == run(
            SessionPhase::Created,
            undisturbed(before + after, code),
            url,
        ).0,
        notifications(
            run(SessionPhase::Created, undisturbed(before + seq![text] + after, code), url).1,
        ) == notifications(run(SessionPhase::Created, undisturbed(before + after, code), url).1),
{
    let one = seq![text];
    lemma_decoded_one(url, text);
    lemma_decoded_concat(url, before, one);
    lemma_decoded_concat(url, before + one, after);
    lemma_decoded_concat(url, before, after);
    assert(decoded(url, before + one + after) =~= decoded(url, before + after));
    undisturbed_download_reports(url, before + one + after, code);
    undisturbed_download_reports(url, before + after, code);
}

} // verus!
