//! Failures of the fetch engine, and how a failed installation is told apart.

use vstd::prelude::*;
use crate::text::{chars_of, contains, has_substring};

verus! {

/// What went wrong in the fetch engine.
#[derive(Debug, Clone, Copy, PartialEq, Eq, Structural)]
pub enum EngineErrorKind {
    NotInstalled,
    CorruptedInstallation,
    NetworkFailure,
    UnsupportedFormat,
    Other,
}

/// A failure of the fetch engine: its kind and the engine's own words.
#[derive(Debug, Clone, PartialEq, Eq)]
pub struct EngineError {
    pub kind: EngineErrorKind,
    pub message: String,
}

pub struct EngineErrorView {
    pub kind: EngineErrorKind,
    pub message: Seq<char>,
}

impl View for EngineError {
    type V = EngineErrorView;

    open spec fn view(&self) -> EngineErrorView {
        EngineErrorView { kind: self.kind, message: self.message@ }
    }
}

/// The installer reports a damaged archive in one of two ways; a message that
/// holds either is the signature of a corrupted installation.
pub open spec fn is_corruption_signature(message: Seq<char>) -> bool {
    has_substring(message, "invalid Zip archive"@) || has_substring(
        message,
        "Could not find EOCD"@,
    )
}

/// The kind of a failed installation: corrupted where the message carries the
/// signature, and `Other` for everything else.
pub open spec fn install_failure_kind(message: Seq<char>) -> EngineErrorKind {
    if is_corruption_signature(message) {
        EngineErrorKind::CorruptedInstallation
    } else {
        EngineErrorKind::Other
    }
}

/// Whether the installer's message carries the signature of a corrupted
/// installation.
pub fn has_corruption_signature(message: &str) -> (r: bool)
    ensures
        r == is_corruption_signature(message@),
{
    let text = chars_of(message);
    let archive = chars_of("invalid Zip archive");
    let directory = chars_of("Could not find EOCD");
    contains(&text, &archive) || contains(&text, &directory)
}

/// Tells a corrupted installation, which is wiped and installed again, from
/// every other failure of the installer.
pub fn classify_install_failure(message: &str) -> (kind: EngineErrorKind)
    ensures
        kind == install_failure_kind(message@),
{
    if has_corruption_signature(message) {
        EngineErrorKind::CorruptedInstallation
    } else {
        EngineErrorKind::Other
    }
}

/// A failure as the fetch engine itself names it.
#[derive(Debug, Clone, Copy, PartialEq, Eq, Structural)]
pub enum EngineFault {
    /// A task of the engine did not complete.
    Runtime,
    /// The file system failed.
    Io,
    /// An archive of the engine's binaries could not be unpacked.
    Archive,
    /// An HTTP request failed.
    Http,
    /// The network did not answer in time.
    Timeout,
    /// The engine's output could not be read as JSON.
    Json,
    /// No release of a binary exists for this machine.
    NoBinaryRelease,
    /// A binary is not where it was installed.
    BinaryNotFound,
    /// A command of the engine failed.
    CommandFailed,
    /// The video could not be looked up.
    VideoFetch,
    /// The video lacks a field that is needed.
    VideoMissingField,
    /// The video has no format of the kind asked for.
    FormatNotAvailable,
    /// The format has no address to download from.
    FormatNoUrl,
    /// The format does not go with what was asked for.
    FormatIncompatible,
    /// The video has no thumbnail.
    NoThumbnail,
    /// The video has no subtitles in the language asked for.
    SubtitleNotAvailable,
    /// The address of the media has expired.
    UrlExpired,
    /// A path was refused.
    PathValidation,
    /// A URL was refused.
    UrlValidation,
    /// A download failed.
    DownloadFailed,
    /// A download was cancelled.
    DownloadCancelled,
    /// A byte range was refused.
    InvalidPartialRange,
    /// Metadata could not be written.
    Metadata,
    /// The engine's own cache holds nothing under the key.
    CacheMiss,
    /// The engine's own cache holds only an expired entry.
    CacheExpired,
    /// A checksum did not match.
    ChecksumMismatch,
    /// A header was refused.
    InvalidHeader,
    /// The server answered with a status that was not expected.
    UnexpectedStatus,
    /// The engine cannot say what went wrong.
    Unknown,
    /// A failure that this list does not name.
    Unlisted,
}

/// The kind of a failure of the engine. A failed request, a missed deadline of
/// the network and an unexpected status are network failures; a missing,
/// addressless or unfitting format is an unsupported format; a binary that is
/// missing or has no release is an engine not installed; an archive that cannot be
/// unpacked is a corrupted installation. Everything else is `Other`.
pub open spec fn fault_kind(fault: EngineFault) -> EngineErrorKind {
    match fault {
        EngineFault::Http => EngineErrorKind::NetworkFailure,
        EngineFault::Timeout => EngineErrorKind::NetworkFailure,
        EngineFault::UnexpectedStatus => EngineErrorKind::NetworkFailure,
        EngineFault::FormatNotAvailable => EngineErrorKind::UnsupportedFormat,
        EngineFault::FormatNoUrl => EngineErrorKind::UnsupportedFormat,
        EngineFault::FormatIncompatible => EngineErrorKind::UnsupportedFormat,
        EngineFault::BinaryNotFound => EngineErrorKind::NotInstalled,
        EngineFault::NoBinaryRelease => EngineErrorKind::NotInstalled,
        EngineFault::Archive => EngineErrorKind::CorruptedInstallation,
        _ => EngineErrorKind::Other,
    }
}

/// Tells the kind of a failure of the engine.
pub fn classify_fault(fault: EngineFault) -> (kind: EngineErrorKind)
    ensures
        kind == fault_kind(fault),
{
    match fault {
        EngineFault::Http | EngineFault::Timeout | EngineFault::UnexpectedStatus => {
            EngineErrorKind::NetworkFailure
        },
        EngineFault::FormatNotAvailable
        | EngineFault::FormatNoUrl
        | EngineFault::FormatIncompatible => EngineErrorKind::UnsupportedFormat,
        EngineFault::BinaryNotFound | EngineFault::NoBinaryRelease => {
            EngineErrorKind::NotInstalled
        },
        EngineFault::Archive => EngineErrorKind::CorruptedInstallation,
        _ => EngineErrorKind::Other,
    }
}

/// Makes the error for a failure of the engine: its kind, and the engine's own
/// words as they are.
pub fn engine_error(fault: EngineFault, message: String) -> (error: EngineError)
    ensures
        error@ == (EngineErrorView { kind: fault_kind(fault), message: message@ }),
{
    EngineError { kind: classify_fault(fault), message }
}

/// The directory that holds the engine's binaries. A corrupted installation is
/// removed by removing this directory with all that is in it.
pub const LIBRARIES_DIR: &'static str = "libs";

/// How the engine's download manager is set up.
#[derive(Debug, Clone, Copy, PartialEq, Eq, Structural)]
pub struct ManagerSettings {
    /// How many downloads the engine runs at once.
    pub max_concurrent_downloads: usize,
    /// Bytes in one segment of a download.
    pub segment_size: usize,
    /// How many segments of one download are fetched at once.
    pub parallel_segments: usize,
    /// How often a failed download is tried again.
    pub retry_attempts: usize,
    /// The most bytes held in memory for one download.
    pub max_buffer_size: usize,
}

/// The set-up of the engine's download manager: segments of ten mebibytes, eight
/// of them at once, five retries, a buffer of twenty mebibytes, and the
/// service's own ceiling on downloads at once.
pub fn manager_settings(max_concurrent_downloads: usize) -> (settings: ManagerSettings)
    ensures
        settings == (ManagerSettings {
            max_concurrent_downloads,
            segment_size: 10_485_760,
            parallel_segments: 8,
            retry_attempts: 5,
            max_buffer_size: 20_971_520,
        }),
{
    ManagerSettings {
        max_concurrent_downloads,
        segment_size: 10_485_760,
        parallel_segments: 8,
        retry_attempts: 5,
        max_buffer_size: 20_971_520,
    }
}

} // verus!
