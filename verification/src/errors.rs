//! The failure taxonomy: bootstrap failures (a required executable could not
//! be acquired), validation failures (an unsupported format token), dispatch
//! failures (the external process could not be run or exited nonzero), and
//! title-query failures.  Each error renders its user-facing message with an
//! exact contract.

use vstd::prelude::*;
use vstd::string::*;
use crate::naming::dec_rep;
use crate::naming::u64_to_decimal;
use crate::strutil::push_char;

verus! {

/// A failure while making sure both external executables are present.
#[derive(Debug, Clone, PartialEq, Eq)]
pub enum BootstrapError {
    /// The automatic download of the downloader executable failed.
    DownloadFailed,
    /// The download reported success but the executable is still absent.
    DownloaderMissingAfterDownload,
    /// The muxer is absent and no bootstrap archive is present either.
    ArchiveMissing,
    /// The archive tool exited nonzero; the code is carried when there is one.
    ExtractionFailed(Option<i32>),
    /// The muxer executable was not found anywhere in the extracted tree.
    MuxerNotFound,
}

/// A failure while preparing or interpreting the download invocation.
#[derive(Debug, Clone, PartialEq, Eq)]
pub enum DispatchError {
    /// The requested format token is neither `mp3` nor `mp4`.
    UnsupportedFormat(String),
    /// The downloader executable could not be started at all.
    SpawnFailed,
    /// The downloader ran and exited nonzero (or without a code).
    CommandFailed(Option<i32>),
}

/// A failure while asking the downloader for the video's title.
#[derive(Debug, Clone, PartialEq, Eq)]
pub enum TitleError {
    /// The title query ran and exited nonzero (or without a code).
    CommandFailed(Option<i32>),
    /// The query succeeded but printed nothing besides whitespace.
    EmptyTitle,
}

/// The decimal text of a possibly negative number.
pub open spec fn signed_dec_rep(v: int) -> Seq<char> {
    if v < 0 {
        seq!['-'] + dec_rep((-v) as nat)
    } else {
        dec_rep(v as nat)
    }
}

/// How an optional exit code is shown in messages: `None`, or `Some(<code>)`.
pub open spec fn code_text(code: Option<i32>) -> Seq<char> {
    match code {
        Option::Some(v) => "Some("@ + signed_dec_rep(v as int) + ")"@,
        Option::None => "None"@,
    }
}

fn i32_to_decimal(v: i32) -> (r: String)
    ensures
        r@ == signed_dec_rep(v as int),
{
    let wide: i64 = v as i64;
    if wide < 0 {
        let mag: u64 = (-wide) as u64;
        let mut out = String::new();
        push_char(&mut out, '-');
        let digits = u64_to_decimal(mag);
        out.append(digits.as_str());
        proof {
            assert(out@ =~= seq!['-'] + dec_rep(mag as nat));
        }
        out
    } else {
        u64_to_decimal(wide as u64)
    }
}

/// Renders an optional exit code the way the original messages show it.
pub fn render_code(code: &Option<i32>) -> (r: String)
    ensures
        r@ == code_text(*code),
{
    match code {
        Option::Some(v) => {
            let mut out = String::from_str("Some(");
            let num = i32_to_decimal(*v);
            out.append(num.as_str());
            out.append(")");
            proof {
                assert(out@ =~= "Some("@ + signed_dec_rep(*v as int) + ")"@);
            }
            out
        },
        Option::None => String::from_str("None"),
    }
}

impl BootstrapError {
    /// The message shown to the user for this failure.
    pub fn message(&self) -> (r: String)
        ensures
            r@ == match *self {
                BootstrapError::DownloadFailed => "Failed to download yt-dlp.exe"@,
                BootstrapError::DownloaderMissingAfterDownload => "Could not download yt-dlp.exe"@,
                BootstrapError::ArchiveMissing => "ffmpeg.exe is missing"@,
                BootstrapError::ExtractionFailed(code) => "Failed to extract ffmpeg zip. bash exit code: "@
                    + code_text(code),
                BootstrapError::MuxerNotFound => "Could not find ffmpeg.exe after extraction"@,
            },
    {
        match self {
            BootstrapError::DownloadFailed => String::from_str("Failed to download yt-dlp.exe"),
            BootstrapError::DownloaderMissingAfterDownload => String::from_str(
                "Could not download yt-dlp.exe",
            ),
            BootstrapError::ArchiveMissing => String::from_str("ffmpeg.exe is missing"),
            BootstrapError::ExtractionFailed(code) => {
                let mut out = String::from_str("Failed to extract ffmpeg zip. bash exit code: ");
                let rendered = render_code(code);
                out.append(rendered.as_str());
                out
            },
            BootstrapError::MuxerNotFound => String::from_str(
                "Could not find ffmpeg.exe after extraction",
            ),
        }
    }
}

impl DispatchError {
    /// The message shown to the user for this failure.
    pub fn message(&self) -> (r: String)
        ensures
            r@ == match *self {
                DispatchError::UnsupportedFormat(t) => "Unsupported format: "@ + t@,
                DispatchError::SpawnFailed => "Failed to execute yt-dlp command"@,
                DispatchError::CommandFailed(code) => "yt-dlp command failed with exit code: "@
                    + code_text(code),
            },
    {
        match self {
            DispatchError::UnsupportedFormat(t) => {
                let mut out = String::from_str("Unsupported format: ");
                out.append(t.as_str());
                out
            },
            DispatchError::SpawnFailed => String::from_str("Failed to execute yt-dlp command"),
            DispatchError::CommandFailed(code) => {
                let mut out = String::from_str("yt-dlp command failed with exit code: ");
                let rendered = render_code(code);
                out.append(rendered.as_str());
                out
            },
        }
    }
}

impl TitleError {
    /// The message shown to the user for this failure.
    pub fn message(&self) -> (r: String)
        ensures
            r@ == match *self {
                TitleError::CommandFailed(code) => "Failed to get video title, exit code: "@
                    + code_text(code),
                TitleError::EmptyTitle => "Empty title returned from yt-dlp"@,
            },
    {
        match self {
            TitleError::CommandFailed(code) => {
                let mut out = String::from_str("Failed to get video title, exit code: ");
                let rendered = render_code(code);
                out.append(rendered.as_str());
                out
            },
            TitleError::EmptyTitle => String::from_str("Empty title returned from yt-dlp"),
        }
    }
}

} // verus!
