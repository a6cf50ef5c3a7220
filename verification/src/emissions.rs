//! The closed set of events that the host interface is told about, and the
//! stable name under which each one travels.

use vstd::prelude::*;

verus! {

/// An event kind that can be sent to the host interface.
#[derive(Clone, Copy, Debug, PartialEq, Eq, Structural)]
pub enum Emission {
    FfmpegInstall,
    YtdlpCancelDownload,
    YtdlpDownloadUpdate,
    YtdlpInstall,
    YtdlpUrlUpdate,
    YtdlpDownloadFinish,
}

impl Emission {
    /// The name under which the event travels.
    pub open spec fn wire_name(self) -> Seq<char> {
        match self {
            Emission::FfmpegInstall => "ffmpeg_install"@,
            Emission::YtdlpCancelDownload => "ytdlp_cancel_download"@,
            Emission::YtdlpDownloadUpdate => "ytdlp_download_update"@,
            Emission::YtdlpDownloadFinish => "ytdlp_download_finish"@,
            Emission::YtdlpInstall => "ytdlp_install"@,
            Emission::YtdlpUrlUpdate => "ytdlp_url_update"@,
        }
    }

    pub fn as_string(&self) -> (name: &'static str)
        ensures
            name@ == self.wire_name(),
    {
        match self {
            Emission::FfmpegInstall => "ffmpeg_install",
            Emission::YtdlpCancelDownload => "ytdlp_cancel_download",
            Emission::YtdlpDownloadUpdate => "ytdlp_download_update",
            Emission::YtdlpDownloadFinish => "ytdlp_download_finish",
            Emission::YtdlpInstall => "ytdlp_install",
            Emission::YtdlpUrlUpdate => "ytdlp_url_update",
        }
    }

    /// No two event kinds travel under the same name.
    pub proof fn wire_names_distinct(a: Emission, b: Emission)
        ensures
            a.wire_name() == b.wire_name() ==> a == b,
    {
        reveal_strlit("ffmpeg_install");
        reveal_strlit("ytdlp_cancel_download");
        reveal_strlit("ytdlp_download_update");
        reveal_strlit("ytdlp_download_finish");
        reveal_strlit("ytdlp_install");
        reveal_strlit("ytdlp_url_update");
        assert("ffmpeg_install"@.len() == 14);
        assert("ytdlp_install"@.len() == 13);
        assert("ytdlp_url_update"@.len() == 16);
        assert("ytdlp_cancel_download"@.len() == 21 && "ytdlp_cancel_download"@[6] == 'c');
        assert("ytdlp_download_update"@.len() == 21 && "ytdlp_download_update"@[6] == 'd'
            && "ytdlp_download_update"@[15] == 'u');
        assert("ytdlp_download_finish"@.len() == 21 && "ytdlp_download_finish"@[6] == 'd'
            && "ytdlp_download_finish"@[15] == 'f');
    }
}

} // verus!
