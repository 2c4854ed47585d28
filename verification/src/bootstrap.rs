//! The bootstrap phase as a state machine: given which of the two required
//! executables are present and whether the bundled archive exists, decide the
//! next acquisition step or fail with an instructional error.  The runner
//! outside this crate performs the chosen step (a download, an extraction)
//! and reports its outcome back through the `apply_*` functions; dispatch is
//! reached only through the `Ready` decision, which guarantees both
//! executables are present.

use vstd::prelude::*;
use vstd::string::*;
use crate::errors::BootstrapError;
use crate::strutil::join_path;
use crate::strutil::spec_join_path;

verus! {

/// The existence flags of the two required executables.
#[derive(Debug, Clone, Copy, PartialEq, Eq, Structural)]
pub struct BinarySet {
    pub downloader_present: bool,
    pub muxer_present: bool,
}

/// What the bootstrap loop should do next.
#[derive(Debug, Clone, Copy, PartialEq, Eq, Structural)]
pub enum BootstrapAction {
    /// Download the downloader executable into the libraries directory.
    AcquireDownloader,
    /// Unpack the bundled archive and install the muxer from it.
    ExtractArchive,
    /// Both executables are present; dispatch may proceed.
    Ready,
}

/// The decision rule of the bootstrap loop.
pub open spec fn spec_bootstrap_step(set: BinarySet, archive_present: bool) -> Result<
    BootstrapAction,
    BootstrapError,
> {
    if !set.downloader_present {
        Ok(BootstrapAction::AcquireDownloader)
    } else if set.muxer_present {
        Ok(BootstrapAction::Ready)
    } else if archive_present {
        Ok(BootstrapAction::ExtractArchive)
    } else {
        Err(BootstrapError::ArchiveMissing)
    }
}

/// Decides the next bootstrap step: acquire the downloader first, then the
/// muxer from the bundled archive; fail when the muxer is absent and there is
/// no archive to extract it from; report `Ready` only with both present.
pub fn bootstrap_step(set: &BinarySet, archive_present: bool) -> (r: Result<
    BootstrapAction,
    BootstrapError,
>)
    ensures
        r == spec_bootstrap_step(*set, archive_present),
        r == Ok::<BootstrapAction, BootstrapError>(BootstrapAction::Ready)
            <==> set.downloader_present && set.muxer_present,
{
    if !set.downloader_present {
        Ok(BootstrapAction::AcquireDownloader)
    } else if set.muxer_present {
        Ok(BootstrapAction::Ready)
    } else if archive_present {
        Ok(BootstrapAction::ExtractArchive)
    } else {
        Err(BootstrapError::ArchiveMissing)
    }
}

/// Applies the outcome of the downloader acquisition: a failed download is
/// fatal, and so is a download that reports success while the executable is
/// still absent; otherwise the downloader flag is set.
pub fn apply_downloader_outcome(set: &BinarySet, download_ok: bool, present_after: bool) -> (r:
    Result<BinarySet, BootstrapError>)
    ensures
        !download_ok ==> r == Err::<BinarySet, BootstrapError>(BootstrapError::DownloadFailed),
        download_ok && !present_after ==> r == Err::<BinarySet, BootstrapError>(
            BootstrapError::DownloaderMissingAfterDownload,
        ),
        download_ok && present_after ==> r == Ok::<BinarySet, BootstrapError>(
            BinarySet { downloader_present: true, muxer_present: set.muxer_present },
        ),
        r matches Ok(s) ==> s.downloader_present,
{
    if !download_ok {
        Err(BootstrapError::DownloadFailed)
    } else if !present_after {
        Err(BootstrapError::DownloaderMissingAfterDownload)
    } else {
        Ok(BinarySet { downloader_present: true, muxer_present: set.muxer_present })
    }
}

/// Applies the outcome of the archive extraction: a nonzero archive-tool exit
/// is fatal with its code, a tree without the muxer is fatal, and otherwise
/// the muxer flag is set.
pub fn apply_extraction_outcome(
    set: &BinarySet,
    unzip_success: bool,
    unzip_code: Option<i32>,
    muxer_found: bool,
) -> (r: Result<BinarySet, BootstrapError>)
    ensures
        !unzip_success ==> r == Err::<BinarySet, BootstrapError>(
            BootstrapError::ExtractionFailed(unzip_code),
        ),
        unzip_success && !muxer_found ==> r == Err::<BinarySet, BootstrapError>(
            BootstrapError::MuxerNotFound,
        ),
        unzip_success && muxer_found ==> r == Ok::<BinarySet, BootstrapError>(
            BinarySet { downloader_present: set.downloader_present, muxer_present: true },
        ),
        r matches Ok(s) ==> s.muxer_present,
{
    if !unzip_success {
        Err(BootstrapError::ExtractionFailed(unzip_code))
    } else if !muxer_found {
        Err(BootstrapError::MuxerNotFound)
    } else {
        Ok(BinarySet { downloader_present: set.downloader_present, muxer_present: true })
    }
}

/// Law: dispatch is never reached while an executable is absent — the
/// bootstrap decision is `Ready` exactly when both executables are present,
/// whatever the archive situation.
pub proof fn lemma_ready_iff_both_present(set: BinarySet, archive_present: bool)
    ensures
        spec_bootstrap_step(set, archive_present) == Ok::<BootstrapAction, BootstrapError>(
            BootstrapAction::Ready,
        ) <==> set.downloader_present && set.muxer_present,
{
}

/// Law: once both executables are installed, bootstrapping again is harmless
/// — the decision is immediately `Ready`, no extraction is attempted and no
/// error can arise, so a rerun leaves the final state unchanged.
pub proof fn lemma_bootstrap_rerun_harmless(set: BinarySet, archive_present: bool)
    requires
        set.downloader_present,
        set.muxer_present,
    ensures
        spec_bootstrap_step(set, archive_present) == Ok::<BootstrapAction, BootstrapError>(
            BootstrapAction::Ready,
        ),
        spec_bootstrap_step(set, archive_present) != Ok::<BootstrapAction, BootstrapError>(
            BootstrapAction::ExtractArchive,
        ),
        !(spec_bootstrap_step(set, archive_present) is Err),
{
}

/// The fixed name of the downloader executable inside the libraries
/// directory.
pub fn downloader_binary_name() -> (r: String)
    ensures
        r@ == "yt-dlp.exe"@,
{
    String::from_str("yt-dlp.exe")
}

/// The fixed name of the muxer executable inside the libraries directory.
pub fn muxer_binary_name() -> (r: String)
    ensures
        r@ == "ffmpeg.exe"@,
{
    String::from_str("ffmpeg.exe")
}

/// The fixed name of the bundled bootstrap archive.
pub fn archive_file_name() -> (r: String)
    ensures
        r@ == "ffmpeg-release.zip"@,
{
    String::from_str("ffmpeg-release.zip")
}

/// The fixed name of the libraries directory.
pub fn libraries_dir_name() -> (r: String)
    ensures
        r@ == "libs"@,
{
    String::from_str("libs")
}

/// The fixed name of the cache directory that is cleared before dispatch.
pub fn cache_dir_name() -> (r: String)
    ensures
        r@ == "cache"@,
{
    String::from_str("cache")
}

/// The canonical path of the downloader executable under a libraries
/// directory.
pub fn downloader_path(libs_dir: &str) -> (r: String)
    ensures
        r@ == spec_join_path(libs_dir@, "yt-dlp.exe"@),
{
    let name = downloader_binary_name();
    join_path(libs_dir, name.as_str())
}

/// The canonical path of the muxer executable under a libraries directory.
pub fn muxer_path(libs_dir: &str) -> (r: String)
    ensures
        r@ == spec_join_path(libs_dir@, "ffmpeg.exe"@),
{
    let name = muxer_binary_name();
    join_path(libs_dir, name.as_str())
}

/// The canonical path of the bootstrap archive under a libraries directory.
pub fn archive_path(libs_dir: &str) -> (r: String)
    ensures
        r@ == spec_join_path(libs_dir@, "ffmpeg-release.zip"@),
{
    let name = archive_file_name();
    join_path(libs_dir, name.as_str())
}

} // verus!
