use vscraper::app_state::AppState;
use vscraper::config::{
    default_binary_path, default_ffmpeg_path, default_ytdlp_path, Config, CONFIG_FILENAME,
};

fn text_field(settings: &serde_json::Value, name: &str) -> Option<String> {
    settings.get(name).and_then(|value| value.as_str()).map(|text| text.to_string())
}

fn config_from_json(text: &str) -> Config {
    let settings: serde_json::Value = serde_json::from_str(text).unwrap();
    Config::from_fields(
        text_field(&settings, "binary_install_path"),
        text_field(&settings, "ffmpeg_path"),
        settings.get("skip_homepage").and_then(|value| value.as_bool()),
        text_field(&settings, "ytdlp_path"),
        text_field(&settings, "rate_limit"),
    )
}

#[test]
fn test_default_config() {
    let serde_conf: Config = config_from_json("{}");
    assert_eq!(serde_conf, Config::default());
}

#[test]
fn default_paths_lie_in_the_install_directory() {
    assert_eq!(default_binary_path(), "./libs/");
    assert_eq!(default_ffmpeg_path(), "./libs/ffmpeg");
    assert_eq!(default_ytdlp_path(), "./libs/yt-dlp");
    assert_eq!(
        std::path::PathBuf::from(default_ffmpeg_path()),
        std::path::PathBuf::from("./libs/").join("ffmpeg")
    );
    assert_eq!(
        std::path::PathBuf::from(default_ytdlp_path()),
        std::path::PathBuf::from("./libs/").join("yt-dlp")
    );
}

#[test]
fn default_config_values() {
    let config = Config::default();
    assert_eq!(config.get_binary_path(), "./libs/");
    assert_eq!(config.get_ffmpeg_path(), "./libs/ffmpeg");
    assert_eq!(config.ffmpeg_path, "./libs/ffmpeg");
    assert_eq!(config.get_ytdlp_path(), "./libs/yt-dlp");
    assert_eq!(config.get_skip_homepage(), false);
    assert_eq!(config.get_rate_limit(), None);
    assert_eq!(CONFIG_FILENAME, "settings.json");
}

#[test]
fn chosen_values_stand_and_the_rest_is_default() {
    let config = config_from_json(
        "{\"ytdlp_path\": \"/opt/bin/yt-dlp\", \"skip_homepage\": true, \"rate_limit\": \"100K\"}",
    );
    assert_eq!(config.get_binary_path(), "./libs/");
    assert_eq!(config.get_ffmpeg_path(), "./libs/ffmpeg");
    assert_eq!(config.get_ytdlp_path(), "/opt/bin/yt-dlp");
    assert_eq!(config.get_skip_homepage(), true);
    assert_eq!(config.get_rate_limit(), Some("100K".to_string()));
    assert_ne!(config, Config::default());
}

#[test]
fn every_value_can_be_chosen() {
    let config = Config::from_fields(
        Some("/a/".to_string()),
        Some("/b/ffmpeg".to_string()),
        Some(false),
        Some("/c/yt-dlp".to_string()),
        None,
    );
    assert_eq!(config.get_binary_path(), "/a/");
    assert_eq!(config.get_ffmpeg_path(), "/b/ffmpeg");
    assert_eq!(config.get_ytdlp_path(), "/c/yt-dlp");
    assert_eq!(config.get_skip_homepage(), false);
    assert_eq!(config.get_rate_limit(), None);
}

#[test]
fn skip_homepage_can_be_set_and_unset() {
    let mut config = Config::default();
    config.set_skip_homepage(true);
    assert_eq!(config.get_skip_homepage(), true);
    assert_eq!(config.get_ytdlp_path(), "./libs/yt-dlp");
    config.set_skip_homepage(false);
    assert_eq!(config, Config::default());
}

#[test]
fn rate_limit_can_be_set_and_lifted() {
    let mut config = Config::default();
    config.set_rate_limit(Some("2M".to_string()));
    assert_eq!(config.get_rate_limit(), Some("2M".to_string()));
    config.set_rate_limit(None);
    assert_eq!(config, Config::default());
}

#[test]
fn config_clone_is_equal() {
    let config = config_from_json("{\"ffmpeg_path\": \"/x/ffmpeg\", \"rate_limit\": \"1M\"}");
    assert_eq!(config.clone(), config);
}

#[test]
fn stored_settings_win_over_defaults() {
    let stored = config_from_json("{\"skip_homepage\": true}");
    assert_eq!(AppState::handle_config(Some(stored.clone())), stored);
    assert_eq!(AppState::handle_config(None), Config::default());
}

#[test]
fn state_hands_out_its_settings() {
    let mut state = AppState::init(Config::default());
    assert_eq!(state.get_config(), Config::default());
    state.set_skip_homepage(true);
    assert_eq!(state.get_config().get_skip_homepage(), true);
    assert_eq!(state.get_config().get_ffmpeg_path(), "./libs/ffmpeg");
}
