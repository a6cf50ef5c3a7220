use vscraper::components::{
    install_order, Component, FFMPEG_EXECUTABLE, FFMPEG_GITHUB, YTDLP_EXECUTABLE, YTDLP_GITHUB,
};
use vscraper::emissions::Emission;
use vscraper::logging::{is_log_level, str_to_log_level, Args, LogLevel};
use vscraper::notification::Notification;
use vscraper::outcome::TerminalOutcome;
use vscraper::progress::DownloadProgress;

#[test]
fn emissions_have_their_names() {
    assert_eq!(Emission::FfmpegInstall.as_string(), "ffmpeg_install");
    assert_eq!(Emission::YtdlpCancelDownload.as_string(), "ytdlp_cancel_download");
    assert_eq!(Emission::YtdlpDownloadUpdate.as_string(), "ytdlp_download_update");
    assert_eq!(Emission::YtdlpDownloadFinish.as_string(), "ytdlp_download_finish");
    assert_eq!(Emission::YtdlpInstall.as_string(), "ytdlp_install");
    assert_eq!(Emission::YtdlpUrlUpdate.as_string(), "ytdlp_url_update");
}

#[test]
fn emission_names_differ() {
    let all = [
        Emission::FfmpegInstall,
        Emission::YtdlpCancelDownload,
        Emission::YtdlpDownloadUpdate,
        Emission::YtdlpInstall,
        Emission::YtdlpUrlUpdate,
        Emission::YtdlpDownloadFinish,
    ];
    for (i, left) in all.iter().enumerate() {
        for (j, right) in all.iter().enumerate() {
            assert_eq!(left.as_string() == right.as_string(), i == j);
        }
    }
}

#[test]
fn notifications_travel_under_their_event() {
    let progress = DownloadProgress {
        url: "u".to_string(),
        percent: "1".to_string(),
        size_downloaded: "2MiB".to_string(),
        speed: "3.0KiB/s".to_string(),
        eta: "4:05".to_string(),
    };
    assert_eq!(
        Notification::AvailabilityResult { url: "u".to_string(), available: true }.emission(),
        Emission::YtdlpUrlUpdate
    );
    assert_eq!(Notification::Progress(progress).emission(), Emission::YtdlpDownloadUpdate);
    assert_eq!(
        Notification::DownloadFinished { url: "u".to_string(), outcome: TerminalOutcome::Success }
            .emission(),
        Emission::YtdlpDownloadFinish
    );
    assert_eq!(
        Notification::CancelResult { url: "u".to_string(), signalled: false }.emission(),
        Emission::YtdlpCancelDownload
    );
    assert_eq!(
        Notification::install_result(Component::Ffmpeg, true).emission(),
        Emission::FfmpegInstall
    );
    assert_eq!(
        Notification::install_result(Component::Ytdlp, false).emission(),
        Emission::YtdlpInstall
    );
    assert_eq!(
        Notification::install_result(Component::Ytdlp, false),
        Notification::InstallResult { component: Component::Ytdlp, installed: false }
    );
}

#[test]
fn install_plans_name_project_and_program() {
    let ffmpeg = Component::Ffmpeg.install_plan("./libs/");
    assert_eq!(ffmpeg.project, "eugeneware/ffmpeg-static");
    assert_eq!(ffmpeg.executable, "ffmpeg");
    assert_eq!(ffmpeg.install_dir, "./libs/");
    assert_eq!(ffmpeg.emission, Emission::FfmpegInstall);
    let ytdlp = Component::Ytdlp.install_plan("/opt/tools");
    assert_eq!(ytdlp.project, "yt-dlp/yt-dlp");
    assert_eq!(ytdlp.executable, "yt-dlp");
    assert_eq!(ytdlp.install_dir, "/opt/tools");
    assert_eq!(ytdlp.emission, Emission::YtdlpInstall);
    assert_eq!(FFMPEG_EXECUTABLE, "ffmpeg");
    assert_eq!(FFMPEG_GITHUB, "eugeneware/ffmpeg-static");
    assert_eq!(YTDLP_EXECUTABLE, "yt-dlp");
    assert_eq!(YTDLP_GITHUB, "yt-dlp/yt-dlp");
}

#[test]
fn media_tool_is_installed_first() {
    assert_eq!(install_order(), vec![Component::Ffmpeg, Component::Ytdlp]);
}

#[test]
fn log_levels_are_read_in_both_spellings() {
    let names = [
        ("Trace", LogLevel::Trace),
        ("trace", LogLevel::Trace),
        ("Debug", LogLevel::Debug),
        ("debug", LogLevel::Debug),
        ("Info", LogLevel::Info),
        ("info", LogLevel::Info),
        ("Warn", LogLevel::Warn),
        ("warn", LogLevel::Warn),
        ("Error", LogLevel::Error),
        ("error", LogLevel::Error),
        ("Off", LogLevel::Off),
        ("off", LogLevel::Off),
    ];
    for (name, level) in names {
        assert!(is_log_level(name));
        assert_eq!(str_to_log_level(name), level);
        assert_eq!(Args::new(name.to_string()).level(), Some(level));
    }
}

#[test]
fn other_texts_name_no_log_level() {
    for text in ["", "INFO", "TRACE", "verbose", " info", "info ", "warning", "oFF", "Offf"] {
        assert!(!is_log_level(text));
        assert_eq!(Args::new(text.to_string()).level(), None);
    }
}

#[test]
fn arguments_name_their_level() {
    assert_eq!(Args::new("debug".to_string()).level(), Some(LogLevel::Debug));
    assert_eq!(Args::new("loud".to_string()).level(), None);
    assert_eq!(Args::new("Off".to_string()).log_level, "Off");
}

#[test]
fn exit_codes_are_classified() {
    assert_eq!(TerminalOutcome::from_exit(Some(0)), TerminalOutcome::Success);
    assert_eq!(TerminalOutcome::from_exit(Some(1)), TerminalOutcome::ProcessError(Some(1)));
    assert_eq!(TerminalOutcome::from_exit(Some(-9)), TerminalOutcome::ProcessError(Some(-9)));
    assert_eq!(TerminalOutcome::from_exit(None), TerminalOutcome::ProcessError(None));
    assert!(TerminalOutcome::Success.is_success());
    assert!(!TerminalOutcome::Cancelled.is_success());
    assert!(!TerminalOutcome::AvailabilityFailed.is_success());
    assert!(!TerminalOutcome::ProcessError(Some(2)).is_success());
}
