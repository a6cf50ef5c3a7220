//! The registry and its sessions taken together, as a model: what can happen
//! to them in any order, and what holds whatever happens.
//!
//! The model is made of the same parts as the code: a start and a
//! cancellation do to the keys in use what [`crate::registry`] says, and a
//! session moves as [`crate::session::transition`] says. What it adds is the
//! control channel, which the code leaves to `tokio`: a signal that was
//! delivered waits until the session takes it, a session finds a signal only
//! if one waits, and it finds the channel disconnected only if the registry
//! no longer holds the sending half.

use vstd::prelude::*;
use crate::outcome::TerminalOutcome;
use crate::registry::{after_remove, after_start, cancel_signalled, start_accepted};
use crate::session::{transition, ActionView, ControlPoll, EventView, SessionPhase};

verus! {

/// The session that runs, or has last run, under a key.
pub ghost struct Running {
    /// Where the session stands.
    pub phase: SessionPhase,
    /// How many signals wait in its control channel.
    pub waiting: nat,
    /// Whether it has asked for its entry to be released and the release has
    /// not been carried out yet.
    pub releasing: bool,
    /// Whether a cancellation was ever asked of it.
    pub cancelled: bool,
}

/// The registry and the sessions.
pub ghost struct System {
    /// The keys in use.
    pub registered: Set<Seq<char>>,
    /// For each key, the session that was last started under it.
    pub sessions: Map<Seq<char>, Running>,
}

/// One thing that can happen.
pub ghost enum Move {
    /// A start is asked for under `key`.
    Start { key: Seq<char> },
    /// A cancellation is asked for under `key`; if it finds a session, the
    /// signal gets into the channel or is dropped, as `delivered` tells.
    Cancel { key: Seq<char>, delivered: bool },
    /// `event` happens to the session under `key`.
    Happen { key: Seq<char>, event: EventView },
    /// The release that the session under `key` asked for is carried out.
    Release { key: Seq<char> },
}

/// Before anything has happened.
pub open spec fn initial() -> System {
    System { registered: Set::empty(), sessions: Map::empty() }
}

/// A session that has just been started.
pub open spec fn fresh() -> Running {
    Running { phase: SessionPhase::Created, waiting: 0, releasing: false, cancelled: false }
}

/// Whether a look at the control channel of `session` can find `poll`.
pub open spec fn can_find(session: Running, registered: bool, poll: ControlPoll) -> bool {
    match poll {
        ControlPoll::Signalled => session.waiting > 0,
        ControlPoll::Idle => session.waiting == 0 && registered,
        ControlPoll::Disconnected => session.waiting == 0 && !registered,
    }
}

/// Whether `step` can happen in `system`. A session looks at its control
/// channel only when a look is due, and finds there what the channel holds;
/// a release is carried out only for a session that asked for it.
pub open spec fn possible(system: System, step: Move) -> bool {
    match step {
        Move::Start { .. } => true,
        Move::Cancel { .. } => true,
        Move::Happen { key, event } => {
            &&& system.sessions.contains_key(key)
            &&& event matches EventView::Control(poll) ==> {
                &&& system.sessions[key].phase == SessionPhase::Polling
                &&& can_find(system.sessions[key], system.registered.contains(key), poll)
            }
        },
        Move::Release { key } => system.sessions.contains_key(key) && system.sessions[key].releasing,
    }
}

/// The session after `event` has happened to it under `key`.
pub open spec fn moved(session: Running, event: EventView, key: Seq<char>) -> Running {
    let next = transition(session.phase, event, key);
    Running {
        phase: next.0,
        waiting: if event == EventView::Control(ControlPoll::Signalled) {
            (session.waiting - 1) as nat
        } else {
            session.waiting
        },
        releasing: session.releasing || next.1.contains(ActionView::Release),
        cancelled: session.cancelled,
    }
}

/// The system after `step`.
pub open spec fn after(system: System, step: Move) -> System {
    match step {
        Move::Start { key } => if start_accepted(system.registered, key) {
            System {
                registered: after_start(system.registered, key),
                sessions: system.sessions.insert(key, fresh()),
            }
        } else {
            system
        },
        Move::Cancel { key, delivered } => if cancel_signalled(system.registered, key)
            && system.sessions.contains_key(key) {
            let session = system.sessions[key];
            System {
                registered: system.registered,
                sessions: system.sessions.insert(
                    key,
                    Running {
                        waiting: if delivered {
                            session.waiting + 1
                        } else {
                            session.waiting
                        },
                        cancelled: true,
                        ..session
                    },
                ),
            }
        } else {
            system
        },
        Move::Happen { key, event } => System {
            registered: system.registered,
            sessions: system.sessions.insert(key, moved(system.sessions[key], event, key)),
        },
        Move::Release { key } => System {
            registered: after_remove(system.registered, key),
            sessions: system.sessions.insert(
                key,
                Running { releasing: false, ..system.sessions[key] },
            ),
        },
    }
}

/// The system after `steps`, one after the other, from the beginning.
pub open spec fn play(steps: Seq<Move>) -> System
    decreases steps.len(),
{
    if steps.len() == 0 {
        initial()
    } else {
        after(play(steps.drop_last()), steps.last())
    }
}

/// Whether each of `steps` can happen when its turn comes.
pub open spec fn playable(steps: Seq<Move>) -> bool
    decreases steps.len(),
{
    steps.len() > 0 ==> playable(steps.drop_last()) && possible(
        play(steps.drop_last()),
        steps.last(),
    )
}

/// What holds of the session under `key` at every moment.
pub open spec fn sound_at(system: System, key: Seq<char>) -> bool {
    let session = system.sessions[key];
    &&& system.registered.contains(key) ==> system.sessions.contains_key(key)
    &&& system.sessions.contains_key(key) ==> {
        &&& system.registered.contains(key) <==> !(session.phase is Finished) || session.releasing
        &&& session.releasing ==> session.phase is Finished
        &&& !session.cancelled ==> {
            &&& session.waiting == 0
            &&& session.phase != SessionPhase::Killing
            &&& session.phase != SessionPhase::Finished(TerminalOutcome::Cancelled)
        }
    }
}

/// What holds of the system at every moment.
pub open spec fn sound(system: System) -> bool {
    forall|key: Seq<char>| sound_at(system, key)
}

/// A transition asks for a release exactly when it ends the session.
proof fn lemma_release_on_finish(phase: SessionPhase, event: EventView, key: Seq<char>)
    requires
        !(phase is Finished),
    ensures
        transition(phase, event, key).1.contains(ActionView::Release) <==> transition(
            phase,
            event,
            key,
        ).0 is Finished,
{
    let next = transition(phase, event, key);
    if next.0 is Finished {
        assert(next.1[next.1.len() - 2] == ActionView::Release);
    } else {
        assert forall|i: int| 0 <= i < next.1.len() implies next.1[i] != ActionView::Release by {}
    }
}

/// One step keeps the system sound.
proof fn lemma_step_sound(system: System, step: Move)
    requires
        sound(system),
        possible(system, step),
    ensures
        sound(after(system, step)),
{
    let next = after(system, step);
    assert forall|key: Seq<char>| sound_at(next, key) by {
        assert(sound_at(system, key));
        match step {
            Move::Start { key: started } => {
                assert(sound_at(system, started));
            },
            Move::Cancel { key: cancelled, delivered } => {
                assert(sound_at(system, cancelled));
            },
            Move::Happen { key: moving, event } => {
                assert(sound_at(system, moving));
                let session = system.sessions[moving];
                if key == moving {
                    if session.phase is Finished {
                        assert(transition(session.phase, event, moving).1
                            =~= Seq::<ActionView>::empty());
                    } else {
                        lemma_release_on_finish(session.phase, event, moving);
                    }
                }
            },
            Move::Release { key: released } => {
                assert(sound_at(system, released));
            },
        }
    }
}

/// The system is sound whatever happens, and in whatever order.
pub proof fn always_sound(steps: Seq<Move>)
    requires
        playable(steps),
    ensures
        sound(play(steps)),
    decreases steps.len(),
{
    if steps.len() > 0 {
        always_sound(steps.drop_last());
        lemma_step_sound(play(steps.drop_last()), steps.last());
    } else {
        assert forall|key: Seq<char>| sound_at(initial(), key) by {}
    }
}

/// A key is in use exactly while its session has not ended or still has its
/// release to come. So a start under the key is rejected for that long and
/// accepted afterwards, and a release always frees the entry of the very
/// session that asked for it.
pub proof fn key_in_use_while_session_lives(steps: Seq<Move>, key: Seq<char>)
    requires
        playable(steps),
    ensures
        ({
            let system = play(steps);
            &&& !start_accepted(system.registered, key) ==> system.sessions.contains_key(key)
            &&& system.sessions.contains_key(key) ==> (start_accepted(system.registered, key) <==> (
            system.sessions[key].phase is Finished && !system.sessions[key].releasing))
        }),
{
    always_sound(steps);
    assert(sound_at(play(steps), key));
}

/// Once a session has ended and its release is carried out, a cancellation
/// under its key signals nobody, until a new session is started under it.
pub proof fn cancel_after_outcome_signals_nobody(steps: Seq<Move>, key: Seq<char>)
    requires
        playable(steps),
        play(steps).sessions.contains_key(key),
        play(steps).sessions[key].phase is Finished,
        !play(steps).sessions[key].releasing,
    ensures
        !cancel_signalled(play(steps).registered, key),
        after(play(steps), Move::Cancel { key, delivered: true }) == play(steps),
{
    always_sound(steps);
    assert(sound_at(play(steps), key));
}

/// A cancellation under one key leaves the session under every other key as
/// it is, and a cancellation under a key that is not in use changes nothing
/// at all.
pub proof fn cancel_touches_its_key_only(
    system: System,
    key: Seq<char>,
    delivered: bool,
    other: Seq<char>,
)
    requires
        other != key,
    ensures
        after(system, Move::Cancel { key, delivered }).sessions.contains_key(other)
            == system.sessions.contains_key(other),
        after(system, Move::Cancel { key, delivered }).sessions[other] == system.sessions[other],
        after(system, Move::Cancel { key, delivered }).registered == system.registered,
        !cancel_signalled(system.registered, key) ==> after(
            system,
            Move::Cancel { key, delivered },
        ) == system,
{
}

/// A session that no cancellation was asked of is never ended by force:
/// whatever is started, cancelled or happening elsewhere, it does not come to
/// kill its downloader, and its outcome is not that of a cancelled download.
pub proof fn uncancelled_sessions_are_not_cancelled(steps: Seq<Move>, key: Seq<char>)
    requires
        playable(steps),
        play(steps).sessions.contains_key(key),
        !play(steps).sessions[key].cancelled,
    ensures
        play(steps).sessions[key].phase != SessionPhase::Killing,
        play(steps).sessions[key].phase != SessionPhase::Finished(TerminalOutcome::Cancelled),
        play(steps).sessions[key].waiting == 0,
{
    always_sound(steps);
    assert(sound_at(play(steps), key));
}

} // verus!
