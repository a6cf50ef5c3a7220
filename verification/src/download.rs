//! A download session as its driver holds it: the key, the two command lines,
//! the receiving half of the control channel, and where the session stands.
//!
//! The driver carries out what the session asks for and reports back what
//! happened. Looking at the control channel needs no waiting, so the session
//! does that itself, between any two lines of output.

use vstd::prelude::*;
use tokio::sync::mpsc::Receiver;
use crate::channel::poll_control;
use crate::config::Config;
use crate::outcome::TerminalOutcome;
use crate::session::{
    lemma_run_push, orderly, run, sessions_are_orderly, step, transition, ActionView, ControlPoll,
    EventView, SessionAction, SessionEvent, SessionPhase,
};
use crate::ytdlp::{
    check_url_availability, download_arguments, download_command, probe_arguments, CommandLine,
    CommandView, DownloadOptions,
};

verus! {

/// What [`DownloadSession::handle`] makes of `event` when the look at the
/// control channel, if one is due afterwards, finds `poll`.
pub open spec fn handled(phase: SessionPhase, event: EventView, poll: ControlPoll, url: Seq<char>) -> (
    SessionPhase,
    Seq<ActionView>,
) {
    let first = transition(phase, event, url);
    if first.0 == SessionPhase::Polling {
        let second = transition(SessionPhase::Polling, EventView::Control(poll), url);
        (second.0, first.1 + second.1)
    } else {
        first
    }
}

/// The events that [`DownloadSession::handle`] feeds to the session for
/// `event`: the event itself and, if a look at the control channel is due
/// afterwards, what the look found.
pub open spec fn fed(phase: SessionPhase, event: EventView, poll: ControlPoll, url: Seq<char>) -> Seq<
    EventView,
> {
    if transition(phase, event, url).0 == SessionPhase::Polling {
        seq![event, EventView::Control(poll)]
    } else {
        seq![event]
    }
}

/// Where a session stands, with what has happened to it and what it has
/// asked for.
struct Track {
    phase: SessionPhase,
    events: Ghost<Seq<EventView>>,
    actions: Ghost<Seq<ActionView>>,
}

/// The course of one session: its key and its track, which always agree.
struct Course {
    url: String,
    track: Track,
}

impl Course {
    /// The session is where its history has taken it, and it has asked for
    /// what its history called for.
    #[verifier::type_invariant]
    spec fn on_track(self) -> bool {
        &&& run(SessionPhase::Created, self.track.events@, self.url@).0 == self.track.phase
        &&& run(SessionPhase::Created, self.track.events@, self.url@).1 == self.track.actions@
    }

    /// The course of a session for `url` that nothing has happened to.
    fn begin(url: String) -> (course: Course)
        ensures
            course.url@ == url@,
            course.track.phase == SessionPhase::Created,
            course.track.events@ == Seq::<EventView>::empty(),
            course.track.actions@ == Seq::<ActionView>::empty(),
    {
        Course {
            url,
            track: Track {
                phase: SessionPhase::Created,
                events: Ghost(Seq::empty()),
                actions: Ghost(Seq::empty()),
            },
        }
    }

    /// Takes the session one transition further.
    fn advance(&mut self, event: &SessionEvent) -> (actions: Vec<SessionAction>)
        ensures
            final(self).url@ == old(self).url@,
            final(self).track.phase == transition(old(self).track.phase, event@, old(self).url@).0,
            actions.deep_view() == transition(old(self).track.phase, event@, old(self).url@).1,
            final(self).track.events@ == old(self).track.events@.push(event@),
            final(self).track.actions@ == old(self).track.actions@ + actions.deep_view(),
    {
        proof {
            use_type_invariant(&*self);
            lemma_run_push(SessionPhase::Created, self.track.events@, event@, self.url@);
        }
        let (phase, actions) = step(self.track.phase, event, self.url.as_str());
        self.track = Track {
            phase,
            events: Ghost(self.track.events@.push(event@)),
            actions: Ghost(self.track.actions@ + actions.deep_view()),
        };
        actions
    }

    /// What the type holds of every course.
    fn check(&self)
        ensures
            run(SessionPhase::Created, self.track.events@, self.url@) == (
                self.track.phase,
                self.track.actions@,
            ),
            orderly(self.track.phase, self.track.actions@, self.url@),
    {
        proof {
            use_type_invariant(self);
            sessions_are_orderly(self.track.events@, self.url@);
        }
    }
}

/// One download, from its start to its outcome.
pub struct DownloadSession {
    course: Course,
    control: Receiver<()>,
    probe: CommandLine,
    download: CommandLine,
}

impl DownloadSession {
    /// The key of the download.
    pub closed spec fn key(&self) -> Seq<char> {
        self.course.url@
    }

    /// Where the session stands.
    pub closed spec fn phase(&self) -> SessionPhase {
        self.course.track.phase
    }

    /// Everything that has happened to the session, in order, looks at the
    /// control channel included.
    pub closed spec fn history(&self) -> Seq<EventView> {
        self.course.track.events@
    }

    /// Everything that the session has asked for, in order.
    pub closed spec fn issued(&self) -> Seq<ActionView> {
        self.course.track.actions@
    }

    /// The receiving half of the control channel that the session looks at.
    pub closed spec fn control(&self) -> Receiver<()> {
        self.control
    }

    /// The command line of the availability probe.
    pub closed spec fn probe(&self) -> CommandView {
        self.probe@
    }

    /// The command line of the download.
    pub closed spec fn download(&self) -> CommandView {
        self.download@
    }

    /// The session is where its history has taken it, and it has asked for
    /// what its history called for and for nothing else. So it is orderly: it
    /// reports its outcome once, as the last thing it asks for, right after
    /// it has released its entry.
    pub open spec fn follows_history(&self) -> bool {
        &&& run(SessionPhase::Created, self.history(), self.key()) == (self.phase(), self.issued())
        &&& orderly(self.phase(), self.issued(), self.key())
    }

    /// Shows that the session follows its history. Every session does, at
    /// every moment.
    pub fn check(&self)
        ensures
            self.follows_history(),
    {
        self.course.check();
    }

    /// A session for the download that `options` describe, with the programs
    /// and the rate limit of `config`, that stores its output at
    /// `output_path` and takes its cancellation signals from `control`.
    /// Nothing has happened to it yet.
    pub fn new(
        options: &DownloadOptions,
        config: &Config,
        output_path: &str,
        control: Receiver<()>,
    ) -> (session: DownloadSession)
        ensures
            session.follows_history(),
            session.key() == options@.url,
            session.phase() == SessionPhase::Created,
            session.history() == Seq::<EventView>::empty(),
            session.issued() == Seq::<ActionView>::empty(),
            session.control() == control,
            session.probe() == (CommandView {
                program: config@.ytdlp_path,
                arguments: probe_arguments(config@.ffmpeg_path, options@.url),
            }),
            session.download() == (CommandView {
                program: config@.ytdlp_path,
                arguments: download_arguments(
                    config@.ffmpeg_path,
                    config@.rate_limit,
                    options@.quality,
                    output_path@,
                    options@.url,
                ),
            }),
    {
        let ytdlp_path = config.get_ytdlp_path();
        let ffmpeg_path = config.get_ffmpeg_path();
        let rate_limit = config.get_rate_limit();
        let session = DownloadSession {
            course: Course::begin(options.get_url()),
            control,
            probe: check_url_availability(ytdlp_path.as_str(), ffmpeg_path.as_str(), options),
            download: download_command(
                ytdlp_path.as_str(),
                ffmpeg_path.as_str(),
                &rate_limit,
                options,
                output_path,
            ),
        };
        session.check();
        session
    }

    /// Takes note of `event` and tells what is to be done now, in order. If
    /// the downloader runs and a line of its output has been dealt with, the
    /// control channel is looked at before the next line is asked for:
    /// whatever the look finds is fed to the session as an event of its own.
    pub fn handle(&mut self, event: SessionEvent) -> (actions: Vec<SessionAction>)
        ensures
            final(self).follows_history(),
            final(self).phase() != SessionPhase::Polling,
            final(self).key() == old(self).key(),
            final(self).probe() == old(self).probe(),
            final(self).download() == old(self).download(),
            exists|poll: ControlPoll|
                {
                    &&& final(self).phase() == (#[trigger] handled(
                        old(self).phase(),
                        event@,
                        poll,
                        old(self).key(),
                    )).0
                    &&& actions.deep_view() == handled(
                        old(self).phase(),
                        event@,
                        poll,
                        old(self).key(),
                    ).1
                    &&& final(self).history() == old(self).history() + fed(
                        old(self).phase(),
                        event@,
                        poll,
                        old(self).key(),
                    )
                },
            final(self).issued() == old(self).issued() + actions.deep_view(),
    {
        let mut actions = self.course.advance(&event);
        let ghost first = actions.deep_view();
        let ghost found = ControlPoll::Idle;
        if self.course.track.phase == SessionPhase::Polling {
            let poll = poll_control(&mut self.control);
            let look = SessionEvent::Control(poll);
            let mut more = self.course.advance(&look);
            let ghost second = more.deep_view();
            actions.append(&mut more);
            proof {
                found = poll;
                assert(actions.deep_view() =~= first + second);
                assert(self.issued() =~= old(self).issued() + actions.deep_view());
            }
        }
        proof {
            let result = handled(old(self).phase(), event@, found, old(self).key());
            assert(self.phase() == result.0);
            assert(actions.deep_view() == result.1);
            assert(self.history() =~= old(self).history() + fed(
                old(self).phase(),
                event@,
                found,
                old(self).key(),
            ));
        }
        self.check();
        actions
    }

    /// The key of the download.
    pub fn get_url(&self) -> (url: String)
        ensures
            url@ == self.key(),
    {
        self.course.url.clone()
    }

    /// Where the session stands.
    pub fn get_phase(&self) -> (phase: SessionPhase)
        ensures
            phase == self.phase(),
    {
        self.course.track.phase
    }

    /// The outcome of the session, once it has ended.
    pub fn outcome(&self) -> (outcome: Option<TerminalOutcome>)
        ensures
            outcome == match self.phase() {
                SessionPhase::Finished(reached) => Some(reached),
                _ => None,
            },
    {
        match self.course.track.phase {
            SessionPhase::Finished(reached) => Some(reached),
            _ => None,
        }
    }

    /// Whether the session has ended.
    pub fn is_finished(&self) -> (finished: bool)
        ensures
            finished == self.phase() is Finished,
    {
        match self.course.track.phase {
            SessionPhase::Finished(_) => true,
            _ => false,
        }
    }

    /// The command line of the availability probe.
    pub fn probe_command(&self) -> (command: CommandLine)
        ensures
            command@ == self.probe(),
    {
        self.probe.clone()
    }

    /// The command line of the download.
    pub fn download_command(&self) -> (command: CommandLine)
        ensures
            command@ == self.download(),
    {
        self.download.clone()
    }
}

} // verus!
