//! The settings that a download reads when it starts: where the two external
//! programs are, and how fast a download may go.

use vstd::prelude::*;
use vstd::string::StringExecFns;
use crate::components::{FFMPEG_EXECUTABLE, YTDLP_EXECUTABLE};

verus! {

/// Name of the file that the settings are kept in.
pub const CONFIG_FILENAME: &'static str = "settings.json";

/// The directory that the external programs are installed into unless the
/// settings name another. It ends in a separator.
pub const DEFAULT_BINARY_PATH: &'static str = "./libs/";

/// The settings.
#[derive(Debug, PartialEq, Eq)]
pub struct Config {
    binary_install_path: String,
    pub ffmpeg_path: String,
    skip_homepage: bool,
    ytdlp_path: String,
    rate_limit: Option<String>,
}

/// What a [`Config`] holds.
pub ghost struct ConfigView {
    pub binary_install_path: Seq<char>,
    pub ffmpeg_path: Seq<char>,
    pub skip_homepage: bool,
    pub ytdlp_path: Seq<char>,
    pub rate_limit: Option<Seq<char>>,
}

impl View for Config {
    type V = ConfigView;

    closed spec fn view(&self) -> ConfigView {
        ConfigView {
            binary_install_path: self.binary_install_path@,
            ffmpeg_path: self.ffmpeg_path@,
            skip_homepage: self.skip_homepage,
            ytdlp_path: self.ytdlp_path@,
            rate_limit: self.rate_limit.deep_view(),
        }
    }
}

/// The settings that hold where nothing was chosen.
pub open spec fn default_view() -> ConfigView {
    ConfigView {
        binary_install_path: DEFAULT_BINARY_PATH@,
        ffmpeg_path: DEFAULT_BINARY_PATH@ + FFMPEG_EXECUTABLE@,
        skip_homepage: false,
        ytdlp_path: DEFAULT_BINARY_PATH@ + YTDLP_EXECUTABLE@,
        rate_limit: None,
    }
}

/// The settings in which each value that was chosen stands, and each that was
/// not has its default.
pub open spec fn chosen_view(
    binary_install_path: Option<Seq<char>>,
    ffmpeg_path: Option<Seq<char>>,
    skip_homepage: Option<bool>,
    ytdlp_path: Option<Seq<char>>,
    rate_limit: Option<Seq<char>>,
) -> ConfigView {
    ConfigView {
        binary_install_path: match binary_install_path {
            Some(path) => path,
            None => default_view().binary_install_path,
        },
        ffmpeg_path: match ffmpeg_path {
            Some(path) => path,
            None => default_view().ffmpeg_path,
        },
        skip_homepage: match skip_homepage {
            Some(skip) => skip,
            None => default_view().skip_homepage,
        },
        ytdlp_path: match ytdlp_path {
            Some(path) => path,
            None => default_view().ytdlp_path,
        },
        rate_limit,
    }
}

/// The default install directory.
pub fn default_binary_path() -> (path: String)
    ensures
        path@ == DEFAULT_BINARY_PATH@,
{
    DEFAULT_BINARY_PATH.to_owned()
}

/// The default place of the media tool: in the default install directory.
pub fn default_ffmpeg_path() -> (path: String)
    ensures
        path@ == DEFAULT_BINARY_PATH@ + FFMPEG_EXECUTABLE@,
{
    default_binary_path().concat(FFMPEG_EXECUTABLE)
}

/// The default place of the downloader: in the default install directory.
pub fn default_ytdlp_path() -> (path: String)
    ensures
        path@ == DEFAULT_BINARY_PATH@ + YTDLP_EXECUTABLE@,
{
    default_binary_path().concat(YTDLP_EXECUTABLE)
}

impl Default for Config {
    fn default() -> (config: Config)
        ensures
            config@ == default_view(),
    {
        Config {
            binary_install_path: default_binary_path(),
            ffmpeg_path: default_ffmpeg_path(),
            skip_homepage: false,
            ytdlp_path: default_ytdlp_path(),
            rate_limit: None,
        }
    }
}

impl Clone for Config {
    fn clone(&self) -> (copy: Config)
        ensures
            copy@ == self@,
    {
        Config {
            binary_install_path: self.binary_install_path.clone(),
            ffmpeg_path: self.ffmpeg_path.clone(),
            skip_homepage: self.skip_homepage,
            ytdlp_path: self.ytdlp_path.clone(),
            rate_limit: match &self.rate_limit {
                Some(limit) => Some(limit.clone()),
                None => None,
            },
        }
    }
}

impl Config {
    /// The settings made of the values that were chosen; each value that was
    /// left out has its default.
    pub fn from_fields(
        binary_install_path: Option<String>,
        ffmpeg_path: Option<String>,
        skip_homepage: Option<bool>,
        ytdlp_path: Option<String>,
        rate_limit: Option<String>,
    ) -> (config: Config)
        ensures
            config@ == chosen_view(
                binary_install_path.deep_view(),
                ffmpeg_path.deep_view(),
                skip_homepage,
                ytdlp_path.deep_view(),
                rate_limit.deep_view(),
            ),
    {
        Config {
            binary_install_path: match binary_install_path {
                Some(path) => path,
                None => default_binary_path(),
            },
            ffmpeg_path: match ffmpeg_path {
                Some(path) => path,
                None => default_ffmpeg_path(),
            },
            skip_homepage: match skip_homepage {
                Some(skip) => skip,
                None => false,
            },
            ytdlp_path: match ytdlp_path {
                Some(path) => path,
                None => default_ytdlp_path(),
            },
            rate_limit,
        }
    }

    pub fn get_binary_path(&self) -> (path: String)
        ensures
            path@ == self@.binary_install_path,
    {
        self.binary_install_path.clone()
    }

    pub fn get_ytdlp_path(&self) -> (path: String)
        ensures
            path@ == self@.ytdlp_path,
    {
        self.ytdlp_path.clone()
    }

    pub fn get_ffmpeg_path(&self) -> (path: String)
        ensures
            path@ == self@.ffmpeg_path,
    {
        self.ffmpeg_path.clone()
    }

    pub fn get_skip_homepage(&self) -> (skip: bool)
        ensures
            skip == self@.skip_homepage,
    {
        self.skip_homepage
    }

    /// The most that a download may transfer per second, as the downloader
    /// reads it, if a limit is set.
    pub fn get_rate_limit(&self) -> (limit: Option<String>)
        ensures
            limit.deep_view() == self@.rate_limit,
    {
        match &self.rate_limit {
            Some(limit) => Some(limit.clone()),
            None => None,
        }
    }

    pub fn set_skip_homepage(&mut self, new_preference: bool)
        ensures
            final(self)@ == (ConfigView { skip_homepage: new_preference, ..old(self)@ }),
    {
        self.skip_homepage = new_preference;
    }

    /// Sets or lifts the limit on the transfer rate.
    pub fn set_rate_limit(&mut self, limit: Option<String>)
        ensures
            final(self)@ == (ConfigView { rate_limit: limit.deep_view(), ..old(self)@ }),
    {
        self.rate_limit = limit;
    }
}

/// Choosing nothing gives the default settings.
pub proof fn nothing_chosen_is_default()
    ensures
        chosen_view(None, None, None, None, None) == default_view(),
{
}

} // verus!
