//! The failures a resolution can end with.
//!
//! Every failure is a kind, for callers that branch on it, and a message for
//! people. The spec functions below fix the message of each failure; the
//! executable code builds exactly these texts.
use vstd::prelude::*;
use vstd::string::*;
use crate::text::{append, join, join_strings};

verus! {

/// What went wrong, without the details.
#[derive(Clone, Copy, Debug, PartialEq, Eq, Hash, Structural)]
pub enum ErrorKind {
    /// The machine's architecture has no build of the debugger.
    UnsupportedArchitecture,
    /// A path that was handed in does not exist.
    NotFound,
    /// A path that was handed in exists but is no regular file.
    NotAFile,
    /// The release registry could not be queried.
    ReleaseFetch,
    /// The latest release has no asset for this platform.
    AssetNotFound,
    /// The asset's name ends in no known archive extension.
    UnsupportedFileType,
    /// No temporary directory could be created.
    TempDir,
    /// The asset could not be downloaded.
    Download,
    /// The archive's contents could not be put into the version directory.
    Extraction,
    /// The archive was unpacked but holds no executable where one is expected.
    BinaryNotFoundAfterExtraction,
    /// The executable could not be marked as such.
    Permission,
    /// A path could not be resolved against the working directory.
    PathResolution,
}

/// A failed resolution: its kind, and a message that names what was involved.
#[derive(Debug, PartialEq, Eq)]
pub struct ResolveError {
    pub kind: ErrorKind,
    pub message: String,
}

/// The mathematical content of a [`ResolveError`].
pub struct ResolveErrorView {
    pub kind: ErrorKind,
    pub message: Seq<char>,
}

impl View for ResolveError {
    type V = ResolveErrorView;

    open spec fn view(&self) -> ResolveErrorView {
        ResolveErrorView { kind: self.kind, message: self.message@ }
    }
}

pub open spec fn unsupported_architecture() -> ResolveErrorView {
    ResolveErrorView {
        kind: ErrorKind::UnsupportedArchitecture,
        message: "Unsupported architecture: x86 (32-bit). NetCoreDbg only supports 64-bit architectures (amd64/arm64)."@,
    }
}

pub open spec fn user_path_not_found(path: Seq<char>) -> ResolveErrorView {
    ResolveErrorView {
        kind: ErrorKind::NotFound,
        message: "User-provided netcoredbg binary not found at: "@ + path,
    }
}

pub open spec fn user_path_not_a_file(path: Seq<char>) -> ResolveErrorView {
    ResolveErrorView {
        kind: ErrorKind::NotAFile,
        message: "User-provided path is not a file: "@ + path,
    }
}

pub open spec fn binary_not_found(path: Seq<char>) -> ResolveErrorView {
    ResolveErrorView {
        kind: ErrorKind::NotFound,
        message: "netcoredbg binary not found at: "@ + path,
    }
}

pub open spec fn binary_not_a_file(path: Seq<char>) -> ResolveErrorView {
    ResolveErrorView {
        kind: ErrorKind::NotAFile,
        message: "netcoredbg path is not a file: "@ + path,
    }
}

pub open spec fn release_fetch_failed(cause: Seq<char>) -> ResolveErrorView {
    ResolveErrorView {
        kind: ErrorKind::ReleaseFetch,
        message: "Failed to fetch latest release: "@ + cause,
    }
}

/// No asset has the requested name; the message lists every name that was on offer.
pub open spec fn asset_not_found(requested: Seq<char>, available: Seq<Seq<char>>) -> ResolveErrorView {
    ResolveErrorView {
        kind: ErrorKind::AssetNotFound,
        message: "No compatible asset found for platform. Looking for: '"@ + requested
            + "'. Available assets: ["@ + join(available, ", "@) + "]"@,
    }
}

pub open spec fn unsupported_file_type(asset_name: Seq<char>) -> ResolveErrorView {
    ResolveErrorView {
        kind: ErrorKind::UnsupportedFileType,
        message: "Unsupported file type for asset: "@ + asset_name,
    }
}

pub open spec fn temp_dir_failed(cause: Seq<char>) -> ResolveErrorView {
    ResolveErrorView {
        kind: ErrorKind::TempDir,
        message: "Failed to create secure temp directory: "@ + cause,
    }
}

pub open spec fn download_failed(cause: Seq<char>) -> ResolveErrorView {
    ResolveErrorView {
        kind: ErrorKind::Download,
        message: "Failed to download netcoredbg: "@ + cause,
    }
}

pub open spec fn version_dir_failed(cause: Seq<char>) -> ResolveErrorView {
    ResolveErrorView {
        kind: ErrorKind::Extraction,
        message: "Failed to create version directory: "@ + cause,
    }
}

pub open spec fn copy_failed(cause: Seq<char>) -> ResolveErrorView {
    ResolveErrorView {
        kind: ErrorKind::Extraction,
        message: "Failed to copy extracted content: "@ + cause,
    }
}

pub open spec fn binary_missing_after_extraction(path: Seq<char>) -> ResolveErrorView {
    ResolveErrorView {
        kind: ErrorKind::BinaryNotFoundAfterExtraction,
        message: "netcoredbg executable not found at: "@ + path,
    }
}

pub open spec fn permission_failed(cause: Seq<char>) -> ResolveErrorView {
    ResolveErrorView {
        kind: ErrorKind::Permission,
        message: "Failed to make file executable: "@ + cause,
    }
}

pub open spec fn path_resolution_failed(cause: Seq<char>) -> ResolveErrorView {
    ResolveErrorView {
        kind: ErrorKind::PathResolution,
        message: "Failed to get current directory: "@ + cause,
    }
}

impl ResolveError {
    /// A failure whose message is a fixed lead followed by what was involved.
    pub fn new(kind: ErrorKind, lead: &str, detail: &str) -> (r: ResolveError)
        ensures
            r@ == (ResolveErrorView { kind, message: lead@ + detail@ }),
    {
        ResolveError { kind, message: append(lead, detail) }
    }

    /// The failure for an architecture without a build.
    pub fn unsupported_architecture() -> (r: ResolveError)
        ensures
            r@ == unsupported_architecture(),
    {
        ResolveError {
            kind: ErrorKind::UnsupportedArchitecture,
            message: String::from_str(
                "Unsupported architecture: x86 (32-bit). NetCoreDbg only supports 64-bit architectures (amd64/arm64).",
            ),
        }
    }

    /// The failure for a release that lacks the requested asset.
    pub fn asset_not_found(requested: &str, available: &Vec<String>) -> (r: ResolveError)
        ensures
            r@ == asset_not_found(requested@, available.deep_view()),
    {
        let mut message = String::from_str(
            "No compatible asset found for platform. Looking for: '",
        );
        message.append(requested);
        message.append("'. Available assets: [");
        let listed = join_strings(available, ", ");
        message.append(listed.as_str());
        message.append("]");
        ResolveError { kind: ErrorKind::AssetNotFound, message }
    }

    /// The message, as an owned text.
    pub fn to_text(&self) -> (r: String)
        ensures
            r@ == self@.message,
    {
        self.message.clone()
    }
}

impl Clone for ResolveError {
    fn clone(&self) -> (r: ResolveError)
        ensures
            r == *self,
    {
        ResolveError { kind: self.kind, message: self.message.clone() }
    }
}

} // verus!
