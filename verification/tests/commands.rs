use tokio::sync::mpsc::error::TryRecvError;
use vscraper::app_state::AppState;
use vscraper::commands::{
    cancel_download, download_best_quality, download_from_custom_format, download_from_options,
};
use vscraper::config::Config;
use vscraper::download::DownloadSession;
use vscraper::notification::Notification;
use vscraper::outcome::TerminalOutcome;
use vscraper::session::{SessionAction, SessionEvent, SessionPhase};
use vscraper::ytdlp::{
    check_url_availability, default_container, default_name_format, default_quality,
    download_command, CommandLine, DownloadOptions,
};

const OUTPUT: &str = "/home/me/Downloads/%(title)s.%(ext)s";
const LINE: &str = "[download]  42.5% of ~ 10.00MiB at 1.20MiB/s ETA 00:08";

fn texts(items: &[&str]) -> Vec<String> {
    items.iter().map(|item| item.to_string()).collect()
}

fn best_quality(url: &str) -> DownloadOptions {
    DownloadOptions::from_fields(url.to_string(), None, None, None)
}

fn finished(url: &str, outcome: TerminalOutcome) -> SessionAction {
    SessionAction::Notify(Notification::DownloadFinished { url: url.to_string(), outcome })
}

fn cancel_result(url: &str, signalled: bool) -> Notification {
    Notification::CancelResult { url: url.to_string(), signalled }
}

fn carry_out(state: &mut AppState, session: &DownloadSession, actions: &[SessionAction]) {
    for action in actions {
        if *action == SessionAction::Release {
            state.remove_download(&session.get_url());
        }
    }
}

fn run_to_reading(session: &mut DownloadSession) {
    assert_eq!(session.handle(SessionEvent::Begin), vec![SessionAction::Probe]);
    assert_eq!(session.handle(SessionEvent::ProbeExited { available: true }).len(), 2);
    assert_eq!(session.handle(SessionEvent::Spawned), vec![SessionAction::ReadLine]);
    assert_eq!(session.get_phase(), SessionPhase::Reading);
}

#[test]
fn ytdlp_custom_format_invalid_url() {
    let url = String::from(
        "htt://www.youtube.com/watch?v=dQw4w9WgXcQ&list=RDdQw4w9WgXcQ&start_radio=1",
    );
    let format = String::from("best[height<=720]");

    let mut app = AppState::init(Config::default());

    let result = download_from_custom_format(&mut app, url, format, OUTPUT);

    assert_eq!(result.is_some(), true);
}

#[test]
fn options_default_when_absent() {
    let options = DownloadOptions::from_fields("u".to_string(), None, None, None);
    assert_eq!(options.get_url(), "u");
    assert_eq!(options.get_quality(), "best");
    assert_eq!(options.get_container(), "mp4");
    assert_eq!(options.get_name_format(), "%(title)s.%(ext)s");
    assert_eq!(default_quality(), "best");
    assert_eq!(default_container(), "mp4");
    assert_eq!(default_name_format(), "%(title)s.%(ext)s");
}

#[test]
fn chosen_options_stand() {
    let options = DownloadOptions::from_fields(
        "u".to_string(),
        Some("mkv".to_string()),
        Some("%(id)s".to_string()),
        Some("worst".to_string()),
    );
    assert_eq!(options.get_url(), "u");
    assert_eq!(options.get_quality(), "worst");
    assert_eq!(options.get_container(), "mkv");
    assert_eq!(options.get_name_format(), "%(id)s");
    let changed = options.clone().with_quality("bestaudio".to_string());
    assert_eq!(changed.get_quality(), "bestaudio");
    assert_eq!(changed.get_container(), "mkv");
    assert_eq!(changed.get_name_format(), "%(id)s");
    assert_eq!(changed.get_url(), "u");
    assert_eq!(options.clone(), options);
}

#[test]
fn probe_command_simulates() {
    let command = check_url_availability("/bin/yt-dlp", "/bin/ffmpeg", &best_quality("https://x/1"));
    assert_eq!(
        command,
        CommandLine {
            program: "/bin/yt-dlp".to_string(),
            arguments: texts(&["--ffmpeg-location", "/bin/ffmpeg", "--simulate", "https://x/1"]),
        }
    );
    assert_eq!(command.clone(), command);
}

#[test]
fn download_command_without_rate_limit() {
    let command =
        download_command("/bin/yt-dlp", "/bin/ffmpeg", &None, &best_quality("https://x/1"), OUTPUT);
    assert_eq!(command.program, "/bin/yt-dlp");
    assert_eq!(
        command.arguments,
        texts(&[
            "--newline",
            "--ffmpeg-location",
            "/bin/ffmpeg",
            "-f",
            "best",
            "-o",
            OUTPUT,
            "https://x/1"
        ])
    );
}

#[test]
fn download_command_with_rate_limit() {
    let options = best_quality("https://x/1").with_quality("best[height<=720]".to_string());
    let command =
        download_command("yt-dlp", "ffmpeg", &Some("100K".to_string()), &options, "out");
    assert_eq!(
        command.arguments,
        texts(&[
            "--limit-rate",
            "100K",
            "--newline",
            "--ffmpeg-location",
            "ffmpeg",
            "-f",
            "best[height<=720]",
            "-o",
            "out",
            "https://x/1"
        ])
    );
}

#[test]
fn accepted_start_hands_out_a_fresh_session() {
    let mut config = Config::default();
    config.set_rate_limit(Some("2M".to_string()));
    let mut state = AppState::init(config);
    let session = download_from_options(&mut state, best_quality("https://x/1"), OUTPUT).unwrap();
    assert_eq!(session.get_url(), "https://x/1");
    assert_eq!(session.get_phase(), SessionPhase::Created);
    assert_eq!(session.outcome(), None);
    assert!(!session.is_finished());
    assert_eq!(
        session.probe_command(),
        CommandLine {
            program: "./libs/yt-dlp".to_string(),
            arguments: texts(&["--ffmpeg-location", "./libs/ffmpeg", "--simulate", "https://x/1"]),
        }
    );
    assert_eq!(
        session.download_command(),
        CommandLine {
            program: "./libs/yt-dlp".to_string(),
            arguments: texts(&[
                "--limit-rate",
                "2M",
                "--newline",
                "--ffmpeg-location",
                "./libs/ffmpeg",
                "-f",
                "best",
                "-o",
                OUTPUT,
                "https://x/1"
            ]),
        }
    );
    assert!(state.get_download("https://x/1").is_some());
}

#[test]
fn best_quality_overrides_the_selector() {
    let mut state = AppState::init(Config::default());
    let options = best_quality("u").with_quality("worst".to_string());
    let session = download_best_quality(&mut state, options, OUTPUT).unwrap();
    assert_eq!(
        session.download_command().arguments,
        texts(&["--newline", "--ffmpeg-location", "./libs/ffmpeg", "-f", "bestvideo", "-o", OUTPUT, "u"])
    );
    assert!(download_best_quality(&mut state, best_quality("u"), OUTPUT).is_none());
}

#[test]
fn custom_format_is_the_quality_selector() {
    let mut state = AppState::init(Config::default());
    let session = download_from_custom_format(
        &mut state,
        "u".to_string(),
        "best[height<=720]".to_string(),
        OUTPUT,
    )
    .unwrap();
    assert_eq!(
        session.download_command().arguments,
        texts(&[
            "--newline",
            "--ffmpeg-location",
            "./libs/ffmpeg",
            "-f",
            "best[height<=720]",
            "-o",
            OUTPUT,
            "u"
        ])
    );
}

#[test]
fn duplicate_start_is_rejected_until_the_first_has_ended() {
    let mut state = AppState::init(Config::default());
    let mut first = download_from_options(&mut state, best_quality("https://x/1"), OUTPUT).unwrap();
    assert!(download_from_options(&mut state, best_quality("https://x/1"), OUTPUT).is_none());
    run_to_reading(&mut first);
    assert!(download_from_options(&mut state, best_quality("https://x/1"), OUTPUT).is_none());
    assert_eq!(first.handle(SessionEvent::OutputClosed), vec![SessionAction::AwaitExit]);
    let closing = first.handle(SessionEvent::Exited(Some(0)));
    assert_eq!(closing, vec![SessionAction::Release, finished("https://x/1", TerminalOutcome::Success)]);
    carry_out(&mut state, &first, &closing);
    assert!(download_from_options(&mut state, best_quality("https://x/1"), OUTPUT).is_some());
}

#[test]
fn start_start_cancel_cancel() {
    let mut state = AppState::init(Config::default());
    let started = download_best_quality(&mut state, best_quality("https://x/1"), OUTPUT);
    assert_eq!(started.is_some(), true);
    let mut session = started.unwrap();
    let again = download_best_quality(&mut state, best_quality("https://x/1"), OUTPUT);
    assert_eq!(again.is_some(), false);
    assert_eq!(
        cancel_download(&state, "https://x/1".to_string()),
        cancel_result("https://x/1", true)
    );
    assert_eq!(session.handle(SessionEvent::Begin), vec![SessionAction::Probe]);
    assert_eq!(session.handle(SessionEvent::ProbeExited { available: true }).len(), 2);
    assert_eq!(session.handle(SessionEvent::Spawned), vec![SessionAction::Kill]);
    let closing = session.handle(SessionEvent::Killed);
    assert_eq!(
        closing,
        vec![SessionAction::Release, finished("https://x/1", TerminalOutcome::Cancelled)]
    );
    carry_out(&mut state, &session, &closing);
    assert_eq!(session.outcome(), Some(TerminalOutcome::Cancelled));
    assert_eq!(
        cancel_download(&state, "https://x/1".to_string()),
        cancel_result("https://x/1", false)
    );
}

#[test]
fn cancel_of_an_unknown_url_reports_no_signal() {
    let mut state = AppState::init(Config::default());
    let mut other = download_from_options(&mut state, best_quality("https://x/2"), OUTPUT).unwrap();
    assert_eq!(
        cancel_download(&state, "https://x/1".to_string()),
        cancel_result("https://x/1", false)
    );
    run_to_reading(&mut other);
    assert_eq!(
        other.handle(SessionEvent::Line(LINE.to_string())).last(),
        Some(&SessionAction::ReadLine)
    );
}

#[test]
fn cancel_is_noticed_between_two_lines() {
    let mut state = AppState::init(Config::default());
    let mut session = download_from_options(&mut state, best_quality("k"), OUTPUT).unwrap();
    run_to_reading(&mut session);
    let after_line = session.handle(SessionEvent::Line(LINE.to_string()));
    assert_eq!(after_line.len(), 2);
    assert!(matches!(after_line[0], SessionAction::Notify(Notification::Progress(_))));
    assert_eq!(after_line[1], SessionAction::ReadLine);
    assert!(state.cancel_download("k"));
    let after_cancel = session.handle(SessionEvent::Line(LINE.to_string()));
    assert_eq!(after_cancel.len(), 2);
    assert!(matches!(after_cancel[0], SessionAction::Notify(Notification::Progress(_))));
    assert_eq!(after_cancel[1], SessionAction::Kill);
    assert_eq!(session.get_phase(), SessionPhase::Killing);
    assert_eq!(session.handle(SessionEvent::Line(LINE.to_string())), vec![]);
    let closing = session.handle(SessionEvent::Killed);
    assert_eq!(closing, vec![SessionAction::Release, finished("k", TerminalOutcome::Cancelled)]);
    assert_eq!(session.handle(SessionEvent::Line(LINE.to_string())), vec![]);
    assert_eq!(session.handle(SessionEvent::Exited(Some(0))), vec![]);
    assert!(session.is_finished());
}

#[test]
fn silent_downloader_can_be_cancelled() {
    let mut state = AppState::init(Config::default());
    let mut session = download_from_options(&mut state, best_quality("k"), OUTPUT).unwrap();
    run_to_reading(&mut session);
    assert_eq!(session.handle(SessionEvent::Stalled), vec![SessionAction::ReadLine]);
    assert_eq!(session.handle(SessionEvent::Stalled), vec![SessionAction::ReadLine]);
    assert!(state.cancel_download("k"));
    assert_eq!(session.handle(SessionEvent::Stalled), vec![SessionAction::Kill]);
    assert_eq!(
        session.handle(SessionEvent::Killed),
        vec![SessionAction::Release, finished("k", TerminalOutcome::Cancelled)]
    );
}

#[test]
fn failed_kill_leaves_the_outcome_to_the_exit() {
    let mut state = AppState::init(Config::default());
    let mut session = download_from_options(&mut state, best_quality("k"), OUTPUT).unwrap();
    run_to_reading(&mut session);
    assert!(state.cancel_download("k"));
    assert_eq!(session.handle(SessionEvent::Stalled), vec![SessionAction::Kill]);
    assert_eq!(session.handle(SessionEvent::KillFailed), vec![SessionAction::AwaitExit]);
    assert_eq!(
        session.handle(SessionEvent::Exited(Some(1))),
        vec![SessionAction::Release, finished("k", TerminalOutcome::ProcessError(Some(1)))]
    );
}

#[test]
fn lost_registry_entry_cancels_the_session() {
    let mut state = AppState::init(Config::default());
    let mut session = download_from_options(&mut state, best_quality("k"), OUTPUT).unwrap();
    state.remove_download("k");
    assert_eq!(session.handle(SessionEvent::Begin), vec![SessionAction::Probe]);
    assert_eq!(session.handle(SessionEvent::ProbeExited { available: true }).len(), 2);
    assert_eq!(session.handle(SessionEvent::Spawned), vec![SessionAction::Kill]);
}

#[test]
fn unavailable_url_frees_the_key() {
    let mut state = AppState::init(Config::default());
    let mut session = download_from_options(&mut state, best_quality("k"), OUTPUT).unwrap();
    assert_eq!(session.handle(SessionEvent::Begin), vec![SessionAction::Probe]);
    let closing = session.handle(SessionEvent::ProbeExited { available: false });
    assert_eq!(
        closing,
        vec![
            SessionAction::Notify(Notification::AvailabilityResult {
                url: "k".to_string(),
                available: false
            }),
            SessionAction::Release,
            finished("k", TerminalOutcome::AvailabilityFailed)
        ]
    );
    carry_out(&mut state, &session, &closing);
    assert_eq!(session.outcome(), Some(TerminalOutcome::AvailabilityFailed));
    assert!(!state.cancel_download("k"));
    assert!(download_from_options(&mut state, best_quality("k"), OUTPUT).is_some());
}

#[test]
fn failed_start_of_the_downloader_frees_the_key() {
    let mut state = AppState::init(Config::default());
    let mut session = download_from_options(&mut state, best_quality("k"), OUTPUT).unwrap();
    session.handle(SessionEvent::Begin);
    session.handle(SessionEvent::ProbeExited { available: true });
    let closing = session.handle(SessionEvent::SpawnFailed);
    assert_eq!(closing, vec![SessionAction::Release, finished("k", TerminalOutcome::ProcessError(None))]);
    carry_out(&mut state, &session, &closing);
    assert!(!state.cancel_download("k"));
}

#[test]
fn cancelling_some_sessions_leaves_the_others_alone() {
    let mut state = AppState::init(Config::default());
    let urls = ["a", "b", "c", "d", "e"];
    let mut sessions: Vec<DownloadSession> = urls
        .iter()
        .map(|url| download_from_options(&mut state, best_quality(url), OUTPUT).unwrap())
        .collect();
    for session in sessions.iter_mut() {
        run_to_reading(session);
    }
    assert!(state.cancel_download("b"));
    assert!(state.cancel_download("d"));
    for (at, session) in sessions.iter_mut().enumerate() {
        let url = urls[at];
        let next = session.handle(SessionEvent::Line(LINE.to_string()));
        if url == "b" || url == "d" {
            assert_eq!(next.last(), Some(&SessionAction::Kill));
            let closing = session.handle(SessionEvent::Killed);
            assert_eq!(closing.last(), Some(&finished(url, TerminalOutcome::Cancelled)));
        } else {
            assert_eq!(next.last(), Some(&SessionAction::ReadLine));
            assert_eq!(session.handle(SessionEvent::OutputClosed), vec![SessionAction::AwaitExit]);
            let code = if url == "c" { Some(1) } else { Some(0) };
            let closing = session.handle(SessionEvent::Exited(code));
            assert_eq!(closing.last(), Some(&finished(url, TerminalOutcome::from_exit(code))));
            assert_ne!(session.outcome(), Some(TerminalOutcome::Cancelled));
        }
    }
    for session in sessions.iter() {
        state.remove_download(&session.get_url());
        assert!(!state.cancel_download(&session.get_url()));
    }
}

#[test]
fn control_channel_is_drained_one_signal_at_a_time() {
    let mut state = AppState::init(Config::default());
    let mut control = state.start_download("k".to_string()).unwrap();
    assert!(state.cancel_download("k"));
    assert!(state.cancel_download("k"));
    assert_eq!(control.try_recv(), Ok(()));
    assert_eq!(control.try_recv(), Ok(()));
    assert_eq!(control.try_recv(), Err(TryRecvError::Empty));
}

fn sendable<T: Send>(_: &T) {}

#[test]
fn session_and_state_can_move_between_tasks() {
    let mut state = AppState::init(Config::default());
    let session = download_from_options(&mut state, best_quality("k"), OUTPUT).unwrap();
    session.check();
    sendable(&session);
    sendable(&state);
    sendable(&Notification::CancelResult { url: "k".to_string(), signalled: true });
}
