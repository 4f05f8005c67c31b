//! The resolution as a state machine, in mathematical terms.
//!
//! A resolution tries four sources in turn and stops at the first that
//! yields the executable:
//!
//! 1. a path handed in by the user, which must be an existing regular file;
//!    what else is found there is a failure, not a reason to go on;
//! 2. the path remembered from an earlier resolution, if its file is still
//!    there;
//! 3. the version directory of the latest release, if an earlier run of the
//!    editor has already unpacked it;
//! 4. a download of the latest release's asset for this platform into a fresh
//!    temporary directory, whose contents are copied into the version
//!    directory.
//!
//! A path found by the third or fourth source replaces the remembered one.
//! Each phase waits for the answer to exactly one request; `pending` names
//! the request and `advance` says where an answer leads.
use vstd::prelude::*;
use crate::error::{
    binary_missing_after_extraction, copy_failed, download_failed, path_resolution_failed,
    permission_failed, release_fetch_failed, temp_dir_failed, unsupported_architecture,
    unsupported_file_type, user_path_not_a_file, user_path_not_found, version_dir_failed,
    ResolveErrorView,
};
use crate::layout::{binary_path, repository, temp_dir_prefix, version_dir};
use crate::platform::{archive_kind_of, asset_name, ArchiveKind, Os};
use crate::protocol::{ActionView, EventView, PathKind};
use crate::release::{selected, ReleaseView};

verus! {

/// What the third and fourth source work on: the release to install, the
/// asset chosen from it, and the operating system it is installed for.
pub struct PlanView {
    pub tag: Seq<char>,
    pub url: Seq<char>,
    pub asset_name: Seq<char>,
    pub os: Os,
}

impl PlanView {
    /// The directory that the release is unpacked into.
    pub open spec fn version_dir(self) -> Seq<char> {
        version_dir(self.tag)
    }

    /// The executable's path inside that directory.
    pub open spec fn binary_path(self) -> Seq<char> {
        binary_path(self.tag, self.os)
    }
}

/// Where a resolution stands.
pub enum PhaseView {
    /// Waiting to learn what is at the user's path.
    ProbingUserPath { path: Seq<char> },
    /// Waiting for the user's path in absolute form.
    ResolvingUserPath { path: Seq<char> },
    /// Waiting to learn whether the remembered path still exists.
    ProbingCache { path: Seq<char> },
    /// Waiting for the latest release.
    FetchingRelease,
    /// Waiting for the platform, with the release in hand.
    DetectingPlatform { release: ReleaseView },
    /// Waiting to learn whether the release is already unpacked.
    ProbingInstalled { plan: PlanView },
    /// Waiting for the absolute path of the executable found on disk.
    ResolvingInstalled { plan: PlanView },
    /// Waiting for a temporary directory.
    CreatingTempDir { plan: PlanView, kind: ArchiveKind },
    /// Waiting for the download into the temporary directory.
    Downloading { plan: PlanView, kind: ArchiveKind, temp_dir: Seq<char> },
    /// Waiting for the version directory to be created.
    CreatingVersionDir { plan: PlanView, temp_dir: Seq<char> },
    /// Waiting for the copy into the version directory.
    Copying { plan: PlanView, temp_dir: Seq<char> },
    /// Waiting to learn whether the copy brought the executable.
    ProbingExtracted { plan: PlanView, temp_dir: Seq<char> },
    /// Waiting for the executable to be marked as such.
    MarkingExecutable { plan: PlanView, temp_dir: Seq<char> },
    /// Waiting for the absolute path of the fresh executable.
    ResolvingExtracted { plan: PlanView, temp_dir: Seq<char> },
    /// Waiting for the temporary directory to be removed; the outcome of the
    /// download is settled.
    CleaningUp { temp_dir: Seq<char>, outcome: Result<Seq<char>, ResolveErrorView> },
    /// Ended.
    Done { result: Result<Seq<char>, ResolveErrorView> },
}

/// A step of a resolution: the remembered path and the phase after it, and
/// the messages for the diagnostic log that it gave rise to, in order.
pub struct Progress {
    pub cache: Option<Seq<char>>,
    pub phase: PhaseView,
    pub log: Seq<Seq<char>>,
}

/// The request that a phase waits on.
pub open spec fn pending(phase: PhaseView) -> ActionView {
    match phase {
        PhaseView::ProbingUserPath { path } => ActionView::Probe { path },
        PhaseView::ResolvingUserPath { path } => ActionView::Absolutize { path },
        PhaseView::ProbingCache { path } => ActionView::Probe { path },
        PhaseView::FetchingRelease => ActionView::FetchLatestRelease {
            repository: repository(),
            require_assets: true,
            pre_release: false,
        },
        PhaseView::DetectingPlatform { .. } => ActionView::DetectPlatform,
        PhaseView::ProbingInstalled { plan } => ActionView::Probe { path: plan.binary_path() },
        PhaseView::ResolvingInstalled { plan } => ActionView::Absolutize {
            path: plan.binary_path(),
        },
        PhaseView::CreatingTempDir { plan, .. } => ActionView::CreateTempDir {
            prefix: temp_dir_prefix(plan.tag),
        },
        PhaseView::Downloading { plan, kind, temp_dir } => ActionView::Download {
            url: plan.url,
            destination: temp_dir,
            kind,
        },
        PhaseView::CreatingVersionDir { plan, .. } => ActionView::CreateDir {
            path: plan.version_dir(),
        },
        PhaseView::Copying { plan, temp_dir } => ActionView::CopyContents {
            from: temp_dir,
            to: plan.version_dir(),
            content_only: true,
        },
        PhaseView::ProbingExtracted { plan, .. } => ActionView::Probe { path: plan.binary_path() },
        PhaseView::MarkingExecutable { plan, .. } => ActionView::MakeExecutable {
            path: plan.binary_path(),
        },
        PhaseView::ResolvingExtracted { plan, .. } => ActionView::Absolutize {
            path: plan.binary_path(),
        },
        PhaseView::CleaningUp { temp_dir, .. } => ActionView::RemoveTempDir { path: temp_dir },
        PhaseView::Done { result } => ActionView::Finish { result },
    }
}

/// The step that changes the phase and nothing else.
pub open spec fn quietly(cache: Option<Seq<char>>, phase: PhaseView) -> Progress {
    Progress { cache, phase, log: Seq::empty() }
}

/// The step that changes the phase and logs one message.
pub open spec fn noting(cache: Option<Seq<char>>, phase: PhaseView, message: Seq<char>) -> Progress {
    Progress { cache, phase, log: seq![message] }
}

/// The step from a phase of the download into the removal of the temporary
/// directory, after a failure.
pub open spec fn abandoning(
    cache: Option<Seq<char>>,
    temp_dir: Seq<char>,
    error: ResolveErrorView,
) -> Progress {
    quietly(cache, PhaseView::CleaningUp { temp_dir, outcome: Err(error) })
}

/// The message that opens the search for the latest release.
pub open spec fn fetching_message() -> Seq<char> {
    "Fetching latest release info from GitHub to check for existing binary"@
}

/// How a resolution begins: with the user's path if there is one, else with
/// the remembered path if there is one, else with the registry.
pub open spec fn start(cache: Option<Seq<char>>, user_path: Option<Seq<char>>) -> Progress {
    match user_path {
        Some(path) => Progress {
            cache,
            phase: PhaseView::ProbingUserPath { path },
            log: seq!["Starting get_binary_path"@, "Using user-provided path: "@ + path],
        },
        None => match cache {
            Some(path) => noting(
                cache,
                PhaseView::ProbingCache { path },
                "Starting get_binary_path"@,
            ),
            None => Progress {
                cache,
                phase: PhaseView::FetchingRelease,
                log: seq!["Starting get_binary_path"@, fetching_message()],
            },
        },
    }
}

/// Where the answer to the pending request leads. An event that is no answer
/// to it changes nothing.
pub open spec fn advance(cache: Option<Seq<char>>, phase: PhaseView, event: EventView) -> Progress {
    match (phase, event) {
        (PhaseView::ProbingUserPath { path }, EventView::Path { kind }) => match kind {
            PathKind::Missing => quietly(
                cache,
                PhaseView::Done { result: Err(user_path_not_found(path)) },
            ),
            PathKind::Other => quietly(
                cache,
                PhaseView::Done { result: Err(user_path_not_a_file(path)) },
            ),
            PathKind::File => quietly(cache, PhaseView::ResolvingUserPath { path }),
        },
        (PhaseView::ResolvingUserPath { path }, EventView::Absolute { path: result }) => match result {
            Ok(absolute) => quietly(cache, PhaseView::Done { result: Ok(absolute) }),
            Err(cause) => quietly(
                cache,
                PhaseView::Done { result: Err(path_resolution_failed(cause)) },
            ),
        },
        (PhaseView::ProbingCache { path }, EventView::Path { kind }) => if kind.present() {
            noting(
                cache,
                PhaseView::Done { result: Ok(path) },
                "Using cached binary path: "@ + path,
            )
        } else {
            Progress {
                cache,
                phase: PhaseView::FetchingRelease,
                log: seq![
                    "Cached binary no longer exists, will re-download"@,
                    fetching_message(),
                ],
            }
        },
        (PhaseView::FetchingRelease, EventView::Release { release: result }) => match result {
            Ok(release) => quietly(cache, PhaseView::DetectingPlatform { release }),
            Err(cause) => quietly(
                cache,
                PhaseView::Done { result: Err(release_fetch_failed(cause)) },
            ),
        },
        (PhaseView::DetectingPlatform { release }, EventView::Platform { os, arch }) => {
            match asset_name(os, arch) {
                None => quietly(cache, PhaseView::Done { result: Err(unsupported_architecture()) }),
                Some(name) => match selected(release, name) {
                    Err(error) => quietly(cache, PhaseView::Done { result: Err(error) }),
                    Ok(version) => noting(
                        cache,
                        PhaseView::ProbingInstalled {
                            plan: PlanView {
                                tag: version.tag_name,
                                url: version.download_url,
                                asset_name: name,
                                os,
                            },
                        },
                        "Found latest version: "@ + version.tag_name,
                    ),
                },
            }
        },
        (PhaseView::ProbingInstalled { plan }, EventView::Path { kind }) => if kind.present() {
            noting(
                cache,
                PhaseView::ResolvingInstalled { plan },
                "Found existing binary on disk: "@ + plan.binary_path(),
            )
        } else {
            noting(
                cache,
                match archive_kind_of(plan.asset_name) {
                    Some(kind) => PhaseView::CreatingTempDir { plan, kind },
                    None => PhaseView::Done { result: Err(unsupported_file_type(plan.asset_name)) },
                },
                "No existing binary found, downloading from GitHub"@,
            )
        },
        (PhaseView::ResolvingInstalled { plan }, EventView::Absolute { path: result }) => match result {
            Ok(absolute) => quietly(Some(absolute), PhaseView::Done { result: Ok(absolute) }),
            Err(cause) => quietly(
                cache,
                PhaseView::Done { result: Err(path_resolution_failed(cause)) },
            ),
        },
        (PhaseView::CreatingTempDir { plan, kind }, EventView::TempDir { path: result }) => match result {
            Ok(temp_dir) => noting(
                cache,
                PhaseView::Downloading { plan, kind, temp_dir },
                "Created secure temp directory: "@ + temp_dir,
            ),
            Err(cause) => quietly(cache, PhaseView::Done { result: Err(temp_dir_failed(cause)) }),
        },
        (PhaseView::Downloading { plan, kind, temp_dir }, EventView::Completed { result }) => {
            match result {
                Ok(_) => quietly(cache, PhaseView::CreatingVersionDir { plan, temp_dir }),
                Err(cause) => abandoning(cache, temp_dir, download_failed(cause)),
            }
        },
        (PhaseView::CreatingVersionDir { plan, temp_dir }, EventView::Completed { result }) => {
            match result {
                Ok(_) => quietly(cache, PhaseView::Copying { plan, temp_dir }),
                Err(cause) => abandoning(cache, temp_dir, version_dir_failed(cause)),
            }
        },
        (PhaseView::Copying { plan, temp_dir }, EventView::Completed { result }) => match result {
            Ok(_) => quietly(cache, PhaseView::ProbingExtracted { plan, temp_dir }),
            Err(cause) => abandoning(cache, temp_dir, copy_failed(cause)),
        },
        (PhaseView::ProbingExtracted { plan, temp_dir }, EventView::Path { kind }) => {
            if kind.present() {
                quietly(cache, PhaseView::MarkingExecutable { plan, temp_dir })
            } else {
                abandoning(cache, temp_dir, binary_missing_after_extraction(plan.binary_path()))
            }
        },
        (PhaseView::MarkingExecutable { plan, temp_dir }, EventView::Completed { result }) => {
            match result {
                Ok(_) => quietly(cache, PhaseView::ResolvingExtracted { plan, temp_dir }),
                Err(cause) => abandoning(cache, temp_dir, permission_failed(cause)),
            }
        },
        (PhaseView::ResolvingExtracted { plan, temp_dir }, EventView::Absolute { path: result }) => {
            match result {
                Ok(absolute) => quietly(
                    cache,
                    PhaseView::CleaningUp { temp_dir, outcome: Ok(absolute) },
                ),
                Err(cause) => abandoning(cache, temp_dir, path_resolution_failed(cause)),
            }
        },
        (PhaseView::CleaningUp { temp_dir, outcome }, EventView::Completed { .. }) => {
            match outcome {
                Ok(absolute) => noting(
                    Some(absolute),
                    PhaseView::Done { result: Ok(absolute) },
                    "Successfully downloaded and extracted to: "@ + absolute,
                ),
                Err(error) => quietly(cache, PhaseView::Done { result: Err(error) }),
            }
        },
        _ => quietly(cache, phase),
    }
}

} // verus!
