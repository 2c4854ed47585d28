//! The dispatch half of the tool: validating the requested format, deriving
//! the output file name (title-based with a timestamp fallback), building the
//! exact argument lists handed to the downloader executable, and interpreting
//! its exit status.  The process itself is spawned outside this crate, but
//! only with an argument list built here, and its outcome is judged here.

use vstd::prelude::*;
use vstd::string::*;
use crate::errors::DispatchError;
use crate::errors::TitleError;
use crate::sanitize::sanitize_filename;
use crate::sanitize::sanitized_title;
use crate::sanitize::trim_str;
use crate::sanitize::trimmed;
use crate::strutil::join_path;
use crate::strutil::spec_join_path;
use crate::strutil::str_eq;

verus! {

/// The two media formats the tool can produce.
#[derive(Debug, Clone, Copy, PartialEq, Eq, Structural)]
pub enum MediaFormat {
    Mp3,
    Mp4,
}

/// The file-name extension of a format.
pub open spec fn extension_of(fmt: MediaFormat) -> Seq<char> {
    match fmt {
        MediaFormat::Mp3 => ".mp3"@,
        MediaFormat::Mp4 => ".mp4"@,
    }
}

/// Validates the user's format token.  Exactly `mp3` and `mp4` are accepted;
/// any other token is rejected before anything else happens, so no external
/// process is ever spawned and no file is created for an unsupported format.
pub fn parse_format(format: &str) -> (r: Result<MediaFormat, DispatchError>)
    ensures
        r is Ok <==> (format@ == "mp3"@ || format@ == "mp4"@),
        format@ == "mp3"@ ==> r == Ok::<MediaFormat, DispatchError>(MediaFormat::Mp3),
        format@ == "mp4"@ ==> r == Ok::<MediaFormat, DispatchError>(MediaFormat::Mp4),
        r is Err ==> (r matches Err(DispatchError::UnsupportedFormat(t)) && t@ == format@),
{
    proof {
        reveal_strlit("mp3");
        reveal_strlit("mp4");
        assert("mp3"@[2] == '3' && "mp4"@[2] == '4');
    }
    if str_eq(format, "mp3") {
        Ok(MediaFormat::Mp3)
    } else if str_eq(format, "mp4") {
        Ok(MediaFormat::Mp4)
    } else {
        Err(DispatchError::UnsupportedFormat(format.to_owned()))
    }
}

/// The output file name: the sanitized title with the format's extension, or,
/// when no title is available, `audio_<timestamp>` for MP3 and
/// `video_<quality>_<timestamp>` for MP4 — the quality token verbatim.
pub open spec fn spec_output_filename(
    fmt: MediaFormat,
    title: Option<Seq<char>>,
    quality: Seq<char>,
    timestamp: Seq<char>,
) -> Seq<char> {
    match title {
        Option::Some(t) => t + extension_of(fmt),
        Option::None => match fmt {
            MediaFormat::Mp3 => "audio_"@ + timestamp + ".mp3"@,
            MediaFormat::Mp4 => "video_"@ + quality + "_"@ + timestamp + ".mp4"@,
        },
    }
}

/// Derives the output file name from an optional (already sanitized) title,
/// falling back to a timestamp-based name when the title query failed.
pub fn derive_output_filename(
    fmt: MediaFormat,
    title: &Option<String>,
    quality: &str,
    timestamp: &str,
) -> (r: String)
    ensures
        r@ == spec_output_filename(fmt, title.deep_view(), quality@, timestamp@),
{
    match title {
        Option::Some(t) => {
            match fmt {
                MediaFormat::Mp3 => t.clone().concat(".mp3"),
                MediaFormat::Mp4 => t.clone().concat(".mp4"),
            }
        },
        Option::None => {
            match fmt {
                MediaFormat::Mp3 => {
                    let r = String::from_str("audio_").concat(timestamp).concat(".mp3");
                    proof {
                        assert(r@ =~= "audio_"@ + timestamp@ + ".mp3"@);
                    }
                    r
                },
                MediaFormat::Mp4 => {
                    let r = String::from_str("video_").concat(quality).concat("_").concat(
                        timestamp,
                    ).concat(".mp4");
                    proof {
                        assert(r@ =~= "video_"@ + quality@ + "_"@ + timestamp@ + ".mp4"@);
                    }
                    r
                },
            }
        },
    }
}

/// The exact argument list handed to the downloader executable: audio
/// extraction at best quality for MP3, the best available stream for MP4,
/// each with an explicit output path.
pub open spec fn spec_downloader_args(
    fmt: MediaFormat,
    url: Seq<char>,
    output_path: Seq<char>,
) -> Seq<Seq<char>> {
    match fmt {
        MediaFormat::Mp3 => seq![
            url,
            "-x"@,
            "--audio-format"@,
            "mp3"@,
            "--audio-quality"@,
            "0"@,
            "-o"@,
            output_path,
        ],
        MediaFormat::Mp4 => seq![url, "-f"@, "best"@, "-o"@, output_path],
    }
}

/// Builds the downloader's argument list.
pub fn downloader_args(fmt: MediaFormat, url: &str, output_path: &str) -> (r: Vec<String>)
    ensures
        r.deep_view() == spec_downloader_args(fmt, url@, output_path@),
{
    let mut args: Vec<String> = Vec::new();
    args.push(url.to_owned());
    match fmt {
        MediaFormat::Mp3 => {
            args.push(String::from_str("-x"));
            args.push(String::from_str("--audio-format"));
            args.push(String::from_str("mp3"));
            args.push(String::from_str("--audio-quality"));
            args.push(String::from_str("0"));
            args.push(String::from_str("-o"));
            args.push(output_path.to_owned());
        },
        MediaFormat::Mp4 => {
            args.push(String::from_str("-f"));
            args.push(String::from_str("best"));
            args.push(String::from_str("-o"));
            args.push(output_path.to_owned());
        },
    }
    proof {
        assert(args.deep_view() =~= spec_downloader_args(fmt, url@, output_path@));
    }
    args
}

/// The argument list that asks the downloader to print the video's title.
pub open spec fn spec_title_query_args(url: Seq<char>) -> Seq<Seq<char>> {
    seq![url, "--print"@, "title"@]
}

/// Builds the title-query argument list.
pub fn title_query_args(url: &str) -> (r: Vec<String>)
    ensures
        r.deep_view() == spec_title_query_args(url@),
{
    let mut args: Vec<String> = Vec::new();
    args.push(url.to_owned());
    args.push(String::from_str("--print"));
    args.push(String::from_str("title"));
    proof {
        assert(args.deep_view() =~= spec_title_query_args(url@));
    }
    args
}

/// The argument list handed to the platform archive tool: overwrite, the
/// archive, and the destination directory.
pub open spec fn spec_unzip_args(archive: Seq<char>, dest: Seq<char>) -> Seq<Seq<char>> {
    seq!["-o"@, archive, "-d"@, dest]
}

/// Builds the archive tool's argument list.
pub fn unzip_args(archive_path: &str, dest_dir: &str) -> (r: Vec<String>)
    ensures
        r.deep_view() == spec_unzip_args(archive_path@, dest_dir@),
{
    let mut args: Vec<String> = Vec::new();
    args.push(String::from_str("-o"));
    args.push(archive_path.to_owned());
    args.push(String::from_str("-d"));
    args.push(dest_dir.to_owned());
    proof {
        assert(args.deep_view() =~= spec_unzip_args(archive_path@, dest_dir@));
    }
    args
}

/// Judges the downloader's exit: success is owed exactly when the process
/// reported success; otherwise the raw exit code is surfaced.
pub fn interpret_exit_status(success: bool, code: Option<i32>) -> (r: Result<(), DispatchError>)
    ensures
        r is Ok <==> success,
        !success ==> r == Err::<(), DispatchError>(DispatchError::CommandFailed(code)),
{
    if success {
        Ok(())
    } else {
        Err(DispatchError::CommandFailed(code))
    }
}

/// What the title query yields for each outcome of the external process: its
/// failure, a blank title, or the trimmed and sanitized title text.
pub fn process_title_output(success: bool, code: Option<i32>, stdout: &str) -> (r: Result<
    String,
    TitleError,
>)
    ensures
        !success ==> r == Err::<String, TitleError>(TitleError::CommandFailed(code)),
        success && trimmed(stdout@).len() == 0 ==> r == Err::<String, TitleError>(
            TitleError::EmptyTitle,
        ),
        success && trimmed(stdout@).len() > 0 ==> (r matches Ok(t) && t@ == sanitized_title(
            trimmed(stdout@),
        )),
{
    if !success {
        return Err(TitleError::CommandFailed(code));
    }
    let title = trim_str(stdout);
    if title.as_str().unicode_len() == 0 {
        return Err(TitleError::EmptyTitle);
    }
    Ok(sanitize_filename(title.as_str()))
}

/// Law: whatever the quality token, the MP4 fallback file name carries it
/// verbatim — the characters right after the `video_` prefix are exactly the
/// token, unchanged.
pub proof fn lemma_quality_token_verbatim(quality: Seq<char>, timestamp: Seq<char>)
    ensures
        spec_output_filename(MediaFormat::Mp4, None, quality, timestamp).subrange(
            6,
            6 + quality.len() as int,
        ) == quality,
{
    reveal_strlit("video_");
    let full = spec_output_filename(MediaFormat::Mp4, None, quality, timestamp);
    assert("video_"@.len() == 6);
    assert forall|j: int| 0 <= j < quality.len() implies full.subrange(
        6,
        6 + quality.len() as int,
    )[j] == quality[j] by {
        assert(full[6 + j] == quality[j]);
    }
    assert(full.subrange(6, 6 + quality.len() as int) =~= quality);
}

/// Everything the dispatcher needs for one invocation: the derived file name,
/// the full output path, and the downloader's argument list.
pub struct DownloadPlan {
    pub output_filename: String,
    pub output_path: String,
    pub args: Vec<String>,
}

/// Assembles the whole invocation from validated inputs: the file name per
/// the naming rules, the output path inside the output directory, and the
/// exact argument list for the chosen format.
pub fn plan_download(
    fmt: MediaFormat,
    url: &str,
    output_dir: &str,
    quality: &str,
    title: &Option<String>,
    timestamp: &str,
) -> (p: DownloadPlan)
    ensures
        p.output_filename@ == spec_output_filename(fmt, title.deep_view(), quality@, timestamp@),
        p.output_path@ == spec_join_path(output_dir@, p.output_filename@),
        p.args.deep_view() == spec_downloader_args(fmt, url@, p.output_path@),
{
    let output_filename = derive_output_filename(fmt, title, quality, timestamp);
    let output_path = join_path(output_dir, output_filename.as_str());
    let args = downloader_args(fmt, url, output_path.as_str());
    DownloadPlan { output_filename, output_path, args }
}

} // verus!
