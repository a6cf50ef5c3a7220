//! The two external programs that a download needs, and where each is
//! installed from.

use vstd::prelude::*;
use crate::emissions::Emission;

verus! {

/// File name of the media tool, below the install directory.
pub const FFMPEG_EXECUTABLE: &'static str = "ffmpeg";

/// Release project of the media tool.
pub const FFMPEG_GITHUB: &'static str = "eugeneware/ffmpeg-static";

/// File name of the downloader, below the install directory.
pub const YTDLP_EXECUTABLE: &'static str = "yt-dlp";

/// Release project of the downloader.
pub const YTDLP_GITHUB: &'static str = "yt-dlp/yt-dlp";

/// An external program that can be installed.
#[derive(Clone, Copy, Debug, PartialEq, Eq, Structural)]
pub enum Component {
    Ffmpeg,
    Ytdlp,
}

/// What an installer has to know to fetch one component.
#[derive(Debug, PartialEq, Eq)]
pub struct InstallPlan {
    /// The release project to fetch from.
    pub project: String,
    /// The name that the fetched program is installed under.
    pub executable: String,
    /// The directory that it is installed into.
    pub install_dir: String,
    /// The event that reports how the installation went.
    pub emission: Emission,
}

/// What an [`InstallPlan`] holds.
pub ghost struct InstallPlanView {
    pub project: Seq<char>,
    pub executable: Seq<char>,
    pub install_dir: Seq<char>,
    pub emission: Emission,
}

impl View for InstallPlan {
    type V = InstallPlanView;

    open spec fn view(&self) -> InstallPlanView {
        InstallPlanView {
            project: self.project@,
            executable: self.executable@,
            install_dir: self.install_dir@,
            emission: self.emission,
        }
    }
}

impl Component {
    /// The release project of the component.
    pub open spec fn project(self) -> Seq<char> {
        match self {
            Component::Ffmpeg => FFMPEG_GITHUB@,
            Component::Ytdlp => YTDLP_GITHUB@,
        }
    }

    /// The file name of the component.
    pub open spec fn executable(self) -> Seq<char> {
        match self {
            Component::Ffmpeg => FFMPEG_EXECUTABLE@,
            Component::Ytdlp => YTDLP_EXECUTABLE@,
        }
    }

    /// The event that reports the component's installation.
    pub open spec fn emission(self) -> Emission {
        match self {
            Component::Ffmpeg => Emission::FfmpegInstall,
            Component::Ytdlp => Emission::YtdlpInstall,
        }
    }

    /// The plan for installing the component into `install_dir`.
    pub fn install_plan(self, install_dir: &str) -> (plan: InstallPlan)
        ensures
            plan@ == (InstallPlanView {
                project: self.project(),
                executable: self.executable(),
                install_dir: install_dir@,
                emission: self.emission(),
            }),
    {
        match self {
            Component::Ffmpeg => InstallPlan {
                project: FFMPEG_GITHUB.to_owned(),
                executable: FFMPEG_EXECUTABLE.to_owned(),
                install_dir: install_dir.to_owned(),
                emission: Emission::FfmpegInstall,
            },
            Component::Ytdlp => InstallPlan {
                project: YTDLP_GITHUB.to_owned(),
                executable: YTDLP_EXECUTABLE.to_owned(),
                install_dir: install_dir.to_owned(),
                emission: Emission::YtdlpInstall,
            },
        }
    }
}

/// The components that a full installation fetches, in the order in which it
/// fetches them.
pub fn install_order() -> (order: Vec<Component>)
    ensures
        order@ == seq![Component::Ffmpeg, Component::Ytdlp],
{
    let mut order: Vec<Component> = Vec::new();
    order.push(Component::Ffmpeg);
    order.push(Component::Ytdlp);
    order
}

} // verus!
