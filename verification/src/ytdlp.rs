//! What a download is asked for, and the command lines of the downloader
//! that carry it out.

use vstd::prelude::*;

verus! {

/// The container that a download is stored in unless another is asked for.
pub const DEFAULT_CONTAINER: &'static str = "mp4";

/// The template of the output's name unless another is asked for.
pub const DEFAULT_NAME_FORMAT: &'static str = "%(title)s.%(ext)s";

/// The quality selector unless another is asked for.
pub const DEFAULT_QUALITY: &'static str = "best";

/// The quality selector of a download in the best video quality.
pub const BEST_VIDEO_QUALITY: &'static str = "bestvideo";

/// What to download, and how. The url is the key of the download.
#[derive(Debug, PartialEq, Eq)]
pub struct DownloadOptions {
    container: String,
    name_format: String,
    url: String,
    quality: String,
}

/// What [`DownloadOptions`] hold.
pub ghost struct OptionsView {
    pub container: Seq<char>,
    pub name_format: Seq<char>,
    pub url: Seq<char>,
    pub quality: Seq<char>,
}

impl View for DownloadOptions {
    type V = OptionsView;

    closed spec fn view(&self) -> OptionsView {
        OptionsView {
            container: self.container@,
            name_format: self.name_format@,
            url: self.url@,
            quality: self.quality@,
        }
    }
}

/// The options for `url` in which each value that was chosen stands, and each
/// that was not has its default.
pub open spec fn chosen_options(
    url: Seq<char>,
    container: Option<Seq<char>>,
    name_format: Option<Seq<char>>,
    quality: Option<Seq<char>>,
) -> OptionsView {
    OptionsView {
        container: match container {
            Some(container) => container,
            None => DEFAULT_CONTAINER@,
        },
        name_format: match name_format {
            Some(name_format) => name_format,
            None => DEFAULT_NAME_FORMAT@,
        },
        url,
        quality: match quality {
            Some(quality) => quality,
            None => DEFAULT_QUALITY@,
        },
    }
}

pub fn default_container() -> (container: String)
    ensures
        container@ == DEFAULT_CONTAINER@,
{
    DEFAULT_CONTAINER.to_owned()
}

pub fn default_name_format() -> (name_format: String)
    ensures
        name_format@ == DEFAULT_NAME_FORMAT@,
{
    DEFAULT_NAME_FORMAT.to_owned()
}

pub fn default_quality() -> (quality: String)
    ensures
        quality@ == DEFAULT_QUALITY@,
{
    DEFAULT_QUALITY.to_owned()
}

impl Clone for DownloadOptions {
    fn clone(&self) -> (copy: DownloadOptions)
        ensures
            copy@ == self@,
    {
        DownloadOptions {
            container: self.container.clone(),
            name_format: self.name_format.clone(),
            url: self.url.clone(),
            quality: self.quality.clone(),
        }
    }
}

impl DownloadOptions {
    /// The options for `url` made of the values that were chosen; each value
    /// that was left out has its default.
    pub fn from_fields(
        url: String,
        container: Option<String>,
        name_format: Option<String>,
        quality: Option<String>,
    ) -> (options: DownloadOptions)
        ensures
            options@ == chosen_options(
                url@,
                container.deep_view(),
                name_format.deep_view(),
                quality.deep_view(),
            ),
    {
        DownloadOptions {
            container: match container {
                Some(container) => container,
                None => default_container(),
            },
            name_format: match name_format {
                Some(name_format) => name_format,
                None => default_name_format(),
            },
            url,
            quality: match quality {
                Some(quality) => quality,
                None => default_quality(),
            },
        }
    }

    /// The same options with another quality selector.
    pub fn with_quality(self, quality: String) -> (options: DownloadOptions)
        ensures
            options@ == (OptionsView { quality: quality@, ..self@ }),
    {
        DownloadOptions {
            container: self.container,
            name_format: self.name_format,
            url: self.url,
            quality,
        }
    }

    pub fn get_url(&self) -> (url: String)
        ensures
            url@ == self@.url,
    {
        self.url.clone()
    }

    pub fn get_quality(&self) -> (quality: String)
        ensures
            quality@ == self@.quality,
    {
        self.quality.clone()
    }

    pub fn get_container(&self) -> (container: String)
        ensures
            container@ == self@.container,
    {
        self.container.clone()
    }

    pub fn get_name_format(&self) -> (name_format: String)
        ensures
            name_format@ == self@.name_format,
    {
        self.name_format.clone()
    }
}

/// A program and the arguments that it is run with.
#[derive(Debug, PartialEq, Eq)]
pub struct CommandLine {
    pub program: String,
    pub arguments: Vec<String>,
}

/// What a [`CommandLine`] holds.
pub ghost struct CommandView {
    pub program: Seq<char>,
    pub arguments: Seq<Seq<char>>,
}

impl View for CommandLine {
    type V = CommandView;

    open spec fn view(&self) -> CommandView {
        CommandView { program: self.program@, arguments: self.arguments.deep_view() }
    }
}

impl Clone for CommandLine {
    fn clone(&self) -> (copy: CommandLine)
        ensures
            copy@ == self@,
    {
        let mut arguments: Vec<String> = Vec::new();
        let mut index: usize = 0;
        while index < self.arguments.len()
            invariant
                index <= self.arguments.len(),
                arguments.deep_view() == self.arguments.deep_view().take(index as int),
            decreases self.arguments.len() - index,
        {
            arguments = with_argument(arguments, self.arguments[index].as_str());
            proof {
                assert(self.arguments.deep_view().take(index + 1) =~= self.arguments.deep_view().take(
                    index as int,
                ).push(self.arguments[index as int]@));
            }
            index = index + 1;
        }
        proof {
            assert(self.arguments.deep_view().take(index as int) =~= self.arguments.deep_view());
        }
        CommandLine { program: self.program.clone(), arguments }
    }
}

/// The arguments of the availability probe: the downloader goes through the
/// motions for `url` and fetches nothing.
pub open spec fn probe_arguments(ffmpeg_path: Seq<char>, url: Seq<char>) -> Seq<Seq<char>> {
    seq!["--ffmpeg-location"@, ffmpeg_path, "--simulate"@, url]
}

/// The arguments that hold the transfer rate down, if a limit is set.
pub open spec fn rate_arguments(rate_limit: Option<Seq<char>>) -> Seq<Seq<char>> {
    match rate_limit {
        Some(limit) => seq!["--limit-rate"@, limit],
        None => seq![],
    }
}

/// The arguments of the download itself: the rate limit, if one is set; one
/// line of output per progress report; where the media tool is; the quality
/// selector; where the output goes; and the url.
pub open spec fn download_arguments(
    ffmpeg_path: Seq<char>,
    rate_limit: Option<Seq<char>>,
    quality: Seq<char>,
    output_path: Seq<char>,
    url: Seq<char>,
) -> Seq<Seq<char>> {
    rate_arguments(rate_limit) + seq![
        "--newline"@,
        "--ffmpeg-location"@,
        ffmpeg_path,
        "-f"@,
        quality,
        "-o"@,
        output_path,
        url,
    ]
}

/// Puts `argument` at the end of `arguments`.
fn with_argument(arguments: Vec<String>, argument: &str) -> (longer: Vec<String>)
    ensures
        longer.deep_view() == arguments.deep_view().push(argument@),
{
    let mut longer = arguments;
    longer.push(argument.to_owned());
    assert(longer.deep_view() =~= arguments.deep_view().push(argument@));
    longer
}

/// The command line that probes whether the url of `options` can be
/// downloaded.
pub fn check_url_availability(ytdlp_path: &str, ffmpeg_path: &str, options: &DownloadOptions) -> (command:
    CommandLine)
    ensures
        command@ == (CommandView {
            program: ytdlp_path@,
            arguments: probe_arguments(ffmpeg_path@, options@.url),
        }),
{
    let arguments: Vec<String> = Vec::new();
    assert(arguments.deep_view() =~= Seq::<Seq<char>>::empty());
    let arguments = with_argument(arguments, "--ffmpeg-location");
    let arguments = with_argument(arguments, ffmpeg_path);
    let arguments = with_argument(arguments, "--simulate");
    let arguments = with_argument(arguments, options.url.as_str());
    assert(arguments.deep_view() =~= probe_arguments(ffmpeg_path@, options@.url));
    CommandLine { program: ytdlp_path.to_owned(), arguments }
}

/// The command line that downloads the url of `options` to `output_path`.
pub fn download_command(
    ytdlp_path: &str,
    ffmpeg_path: &str,
    rate_limit: &Option<String>,
    options: &DownloadOptions,
    output_path: &str,
) -> (command: CommandLine)
    ensures
        command@ == (CommandView {
            program: ytdlp_path@,
            arguments: download_arguments(
                ffmpeg_path@,
                rate_limit.deep_view(),
                options@.quality,
                output_path@,
                options@.url,
            ),
        }),
{
    let arguments: Vec<String> = Vec::new();
    assert(arguments.deep_view() =~= Seq::<Seq<char>>::empty());
    let arguments = match rate_limit {
        Some(limit) => {
            let arguments = with_argument(arguments, "--limit-rate");
            with_argument(arguments, limit.as_str())
        },
        None => arguments,
    };
    assert(arguments.deep_view() =~= rate_arguments(rate_limit.deep_view()));
    let arguments = with_argument(arguments, "--newline");
    let arguments = with_argument(arguments, "--ffmpeg-location");
    let arguments = with_argument(arguments, ffmpeg_path);
    let arguments = with_argument(arguments, "-f");
    let arguments = with_argument(arguments, options.quality.as_str());
    let arguments = with_argument(arguments, "-o");
    let arguments = with_argument(arguments, output_path);
    let arguments = with_argument(arguments, options.url.as_str());
    assert(arguments.deep_view() =~= download_arguments(
        ffmpeg_path@,
        rate_limit.deep_view(),
        options@.quality,
        output_path@,
        options@.url,
    ));
    CommandLine { program: ytdlp_path.to_owned(), arguments }
}

} // verus!
