//! What the host interface is told: each notification with its payload, and
//! the event kind under which it is sent.

use vstd::prelude::*;
use crate::components::Component;
use crate::emissions::Emission;
use crate::outcome::TerminalOutcome;
use crate::progress::{DownloadProgress, ProgressView};

verus! {

/// One message for the host interface.
#[derive(Debug, PartialEq, Eq)]
pub enum Notification {
    /// The availability probe for `url` has run; `available` tells how.
    AvailabilityResult { url: String, available: bool },
    /// The download has come further.
    Progress(DownloadProgress),
    /// The session for `url` has ended with `outcome`.
    DownloadFinished { url: String, outcome: TerminalOutcome },
    /// A cancellation was asked for `url`; `signalled` tells whether an
    /// active download was there to take it.
    CancelResult { url: String, signalled: bool },
    /// The installation of `component` has ended; `installed` tells how.
    InstallResult { component: Component, installed: bool },
}

/// What a [`Notification`] holds.
pub ghost enum NotificationView {
    AvailabilityResult { url: Seq<char>, available: bool },
    Progress(ProgressView),
    DownloadFinished { url: Seq<char>, outcome: TerminalOutcome },
    CancelResult { url: Seq<char>, signalled: bool },
    InstallResult { component: Component, installed: bool },
}

impl NotificationView {
    /// The event kind under which the notification is sent.
    pub open spec fn emission(self) -> Emission {
        match self {
            NotificationView::AvailabilityResult { .. } => Emission::YtdlpUrlUpdate,
            NotificationView::Progress(_) => Emission::YtdlpDownloadUpdate,
            NotificationView::DownloadFinished { .. } => Emission::YtdlpDownloadFinish,
            NotificationView::CancelResult { .. } => Emission::YtdlpCancelDownload,
            NotificationView::InstallResult { component, .. } => component.emission(),
        }
    }

    /// Whether the notification reports the end of a session.
    pub open spec fn is_terminal(self) -> bool {
        self is DownloadFinished
    }
}

impl View for Notification {
    type V = NotificationView;

    open spec fn view(&self) -> NotificationView {
        match self {
            Notification::AvailabilityResult { url, available } => {
                NotificationView::AvailabilityResult { url: url@, available: *available }
            },
            Notification::Progress(progress) => NotificationView::Progress(progress@),
            Notification::DownloadFinished { url, outcome } => {
                NotificationView::DownloadFinished { url: url@, outcome: *outcome }
            },
            Notification::CancelResult { url, signalled } => {
                NotificationView::CancelResult { url: url@, signalled: *signalled }
            },
            Notification::InstallResult { component, installed } => {
                NotificationView::InstallResult { component: *component, installed: *installed }
            },
        }
    }
}

impl DeepView for Notification {
    type V = NotificationView;

    open spec fn deep_view(&self) -> NotificationView {
        self@
    }
}

impl Notification {
    /// The event kind under which the notification is sent.
    pub fn emission(&self) -> (kind: Emission)
        ensures
            kind == self@.emission(),
    {
        match self {
            Notification::AvailabilityResult { .. } => Emission::YtdlpUrlUpdate,
            Notification::Progress(_) => Emission::YtdlpDownloadUpdate,
            Notification::DownloadFinished { .. } => Emission::YtdlpDownloadFinish,
            Notification::CancelResult { .. } => Emission::YtdlpCancelDownload,
            Notification::InstallResult { component, .. } => match component {
                Component::Ffmpeg => Emission::FfmpegInstall,
                Component::Ytdlp => Emission::YtdlpInstall,
            },
        }
    }

    /// The report on an installation that has ended.
    pub fn install_result(component: Component, installed: bool) -> (notification: Notification)
        ensures
            notification@ == (NotificationView::InstallResult { component, installed }),
    {
        Notification::InstallResult { component, installed }
    }
}

} // verus!
