//! What the host can ask for: to start a download and to cancel one.
//!
//! Neither waits for the download. A start that is accepted hands out the
//! session, which the caller then drives as a task of its own.

use vstd::prelude::*;
use tokio::sync::mpsc::Receiver;
use crate::app_state::AppState;
use crate::download::DownloadSession;
use crate::notification::{Notification, NotificationView};
use crate::registry::{after_start, cancel_signalled, start_accepted};
use crate::session::{ActionView, EventView, SessionPhase};
use crate::ytdlp::{
    chosen_options, download_arguments, probe_arguments, CommandView, DownloadOptions, OptionsView,
    BEST_VIDEO_QUALITY,
};

verus! {

/// Whether `session` is a session for `options` that nothing has happened to
/// yet, with the programs and the rate limit that `state` holds in its
/// settings, with its output at `output_path`, and with `control` as the
/// receiving half of its control channel.
pub open spec fn fresh_session(
    session: DownloadSession,
    state: AppState,
    options: OptionsView,
    output_path: Seq<char>,
    control: Receiver<()>,
) -> bool {
    &&& session.follows_history()
    &&& session.key() == options.url
    &&& session.phase() == SessionPhase::Created
    &&& session.history() == Seq::<EventView>::empty()
    &&& session.issued() == Seq::<ActionView>::empty()
    &&& session.control() == control
    &&& session.probe() == (CommandView {
        program: state.config().ytdlp_path,
        arguments: probe_arguments(state.config().ffmpeg_path, options.url),
    })
    &&& session.download() == (CommandView {
        program: state.config().ytdlp_path,
        arguments: download_arguments(
            state.config().ffmpeg_path,
            state.config().rate_limit,
            options.quality,
            output_path,
            options.url,
        ),
    })
}

/// Starts the download that `options` describe, with its output at
/// `output_path`. If a download runs under the same url already, the start
/// is rejected: nothing changes and no session is handed out. Otherwise the
/// download is entered in the registry and its session is handed out.
pub fn download_from_options(state: &mut AppState, options: DownloadOptions, output_path: &str) -> (started:
    Option<DownloadSession>)
    ensures
        started is Some <==> start_accepted(old(state).active(), options@.url),
        started matches Some(session) ==> fresh_session(
            session,
            *old(state),
            options@,
            output_path@,
            final(state).handed_out()[options@.url],
        ),
        started matches Some(session) ==> final(state).handed_out() == old(
            state,
        ).handed_out().insert(options@.url, session.control()),
        started is None ==> final(state).handed_out() == old(state).handed_out(),
        final(state).active() == after_start(old(state).active(), options@.url),
        final(state).downloads().remove(options@.url) == old(state).downloads().remove(
            options@.url,
        ),
        started is None ==> final(state).downloads() == old(state).downloads(),
        final(state).config() == old(state).config(),
{
    let config = state.get_config();
    match state.start_download(options.get_url()) {
        Some(control) => Some(DownloadSession::new(&options, &config, output_path, control)),
        None => None,
    }
}

/// Starts the download that `options` describe in the best video quality,
/// whatever quality they ask for.
pub fn download_best_quality(state: &mut AppState, options: DownloadOptions, output_path: &str) -> (started:
    Option<DownloadSession>)
    ensures
        started is Some <==> start_accepted(old(state).active(), options@.url),
        started matches Some(session) ==> fresh_session(
            session,
            *old(state),
            OptionsView { quality: BEST_VIDEO_QUALITY@, ..options@ },
            output_path@,
            final(state).handed_out()[options@.url],
        ),
        started matches Some(session) ==> final(state).handed_out() == old(
            state,
        ).handed_out().insert(options@.url, session.control()),
        started is None ==> final(state).handed_out() == old(state).handed_out(),
        final(state).active() == after_start(old(state).active(), options@.url),
        final(state).downloads().remove(options@.url) == old(state).downloads().remove(
            options@.url,
        ),
        started is None ==> final(state).downloads() == old(state).downloads(),
        final(state).config() == old(state).config(),
{
    download_from_options(state, options.with_quality(BEST_VIDEO_QUALITY.to_owned()), output_path)
}

/// Starts the download of `url` with the quality selector `format` and every
/// other option at its default.
pub fn download_from_custom_format(
    state: &mut AppState,
    url: String,
    format: String,
    output_path: &str,
) -> (started: Option<DownloadSession>)
    ensures
        started is Some <==> start_accepted(old(state).active(), url@),
        started matches Some(session) ==> fresh_session(
            session,
            *old(state),
            chosen_options(url@, None, None, Some(format@)),
            output_path@,
            final(state).handed_out()[url@],
        ),
        started matches Some(session) ==> final(state).handed_out() == old(
            state,
        ).handed_out().insert(url@, session.control()),
        started is None ==> final(state).handed_out() == old(state).handed_out(),
        final(state).active() == after_start(old(state).active(), url@),
        final(state).downloads().remove(url@) == old(state).downloads().remove(url@),
        started is None ==> final(state).downloads() == old(state).downloads(),
        final(state).config() == old(state).config(),
{
    download_from_options(
        state,
        DownloadOptions::from_fields(url, None, None, Some(format)),
        output_path,
    )
}

/// Signals the download `url` to stop and tells the host whether a download
/// was there to take the signal.
pub fn cancel_download(state: &AppState, url: String) -> (report: Notification)
    ensures
        report@ == (NotificationView::CancelResult {
            url: url@,
            signalled: cancel_signalled(state.active(), url@),
        }),
{
    let signalled = state.cancel_download(url.as_str());
    Notification::CancelResult { url, signalled }
}

} // verus!
