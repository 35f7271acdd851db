//! The errors of the library, each with the values that name its cause.

use vstd::prelude::*;

verus! {

/// Everything that can abort an invocation. Paths and URLs are held as
/// text; `reason` fields carry the wording of a lower-level failure.
#[derive(Debug, PartialEq, Eq)]
pub enum Error {
    LogInitFailed,
    InvalidVersionFormat { orig: String },
    InvalidVersionNumber { string: String },
    /// Upstream offers a patch past the largest micro number a version holds.
    VersionOverflow { version: String },
    LinuxNotFetched,
    InvalidLinuxURL,
    InvalidToolchainURL,
    InvalidUbootURL,
    FailedToReadVersion { path: String, reason: String },
    FailedToDecodeUTF8,
    CorruptedSourceDir { dir: String, version_file: String },
    CwdAccess { reason: String },
    MissingTarget,
    InvalidJobNumber { value: String },
    ZeroJob,
    FailedToRead { path: String, reason: String },
    FailedToOpen { path: String, reason: String },
    FailedToDecodeXz { path: String },
    FailedToDeser { path: String, reason: String },
    FileDoesNotExist { path: String },
    IllFormedPath { path: String },
    ProgFailed { proc: String, reason: String },
    TarFailed { path: String },
    PatchFailed { path: String },
    UnexpectedUntar { arch: String, dir: String },
    CreateDirError { path: String, reason: String },
    CreateFileError { path: String, reason: String },
    URLError { url: String },
    CURLSetupError { reason: String },
    FailedToWrite { path: String, reason: String },
    DownloadError { code: u32, url: String },
    RequestError { url: String, reason: String },
    CtrlCFailed { reason: String },
    DirIterFailed { dir: String, reason: String },
    CanonFailed { dir: String, reason: String },
    CopyFailed { from: String, to: String, reason: String },
    MakeFailed { target: String },
    URLExtractError { url: String },
    MaintainerError { var: String },
    DebFailed { package: String },
    NoPackage { path: String },
    NoLinux,
    /// An event that the current step of an operation does not expect.
    UnexpectedEvent,
}

} // verus!
