//! The binary manager: it remembers the resolved path and takes every
//! decision of a resolution.
use vstd::prelude::*;
use vstd::string::*;
use crate::error::{
    binary_not_a_file, binary_not_found, ErrorKind, ResolveError, ResolveErrorView,
};
use crate::logger::Logger;
use crate::machine::{advance, start, PhaseView};
use crate::platform::{archive_kind, get_platform_asset_name};
use crate::protocol::{Event, PathKind};
use crate::resolution::{Phase, Plan, Resolution};
use crate::text::append;

verus! {

/// Locates the `netcoredbg` executable, downloading it when need be.
///
/// The manager remembers the path that the latest search on disk or download
/// ended with. A later resolution returns it without asking the registry, as
/// long as its file is still there.
#[derive(Debug)]
pub struct BinaryManager {
    /// The path found by the latest resolution that searched the disk or
    /// downloaded.
    cached_binary_path: Option<String>,
    /// The logger that the host writes the diagnostic messages with.
    logger: Logger,
}

fn no_messages() -> (r: Vec<String>)
    ensures
        r.deep_view() == Seq::<Seq<char>>::empty(),
{
    let r: Vec<String> = Vec::new();
    assert(r.deep_view() =~= Seq::<Seq<char>>::empty());
    r
}

fn one_message(message: String) -> (r: Vec<String>)
    ensures
        r.deep_view() == seq![message@],
{
    let mut r: Vec<String> = Vec::new();
    r.push(message);
    assert(r.deep_view() =~= seq![message@]);
    r
}

fn two_messages(first: String, second: String) -> (r: Vec<String>)
    ensures
        r.deep_view() == seq![first@, second@],
{
    let mut r: Vec<String> = Vec::new();
    r.push(first);
    r.push(second);
    assert(r.deep_view() =~= seq![first@, second@]);
    r
}

fn quietly(phase: Phase) -> (r: Resolution)
    ensures
        r.phase == phase,
        r.messages() == Seq::<Seq<char>>::empty(),
{
    Resolution { phase, log: no_messages() }
}

fn noting(phase: Phase, message: String) -> (r: Resolution)
    ensures
        r.phase == phase,
        r.messages() == seq![message@],
{
    Resolution { phase, log: one_message(message) }
}

fn failed(error: ResolveError) -> (r: Resolution)
    ensures
        r.phase == (Phase::Done { result: Err(error) }),
        r.messages() == Seq::<Seq<char>>::empty(),
{
    quietly(Phase::Done { result: Err(error) })
}

fn abandoning(temp_dir: String, kind: ErrorKind, lead: &str, cause: &str) -> (r: Resolution)
    ensures
        r.phase@ == (PhaseView::CleaningUp {
            temp_dir: temp_dir@,
            outcome: Err(ResolveErrorView { kind, message: lead@ + cause@ }),
        }),
        r.messages() == Seq::<Seq<char>>::empty(),
{
    quietly(Phase::CleaningUp { temp_dir, outcome: Err(ResolveError::new(kind, lead, cause)) })
}

fn fetching_message() -> (r: String)
    ensures
        r@ == crate::machine::fetching_message(),
{
    String::from_str("Fetching latest release info from GitHub to check for existing binary")
}

impl BinaryManager {
    /// The remembered path, as a text.
    pub closed spec fn cache(&self) -> Option<Seq<char>> {
        match self.cached_binary_path {
            Some(path) => Some(path@),
            None => None,
        }
    }

    /// A manager that remembers nothing yet.
    pub fn new() -> (r: BinaryManager)
        ensures
            r.cache() is None,
    {
        BinaryManager { cached_binary_path: None, logger: Logger::new() }
    }

    /// The remembered path, if there is one.
    pub fn cached_binary_path(&self) -> (r: Option<String>)
        ensures
            r is Some <==> self.cache() is Some,
            r is Some ==> self.cache() == Some(r->0@),
    {
        match &self.cached_binary_path {
            Some(path) => Some(path.clone()),
            None => None,
        }
    }

    /// The logger to write the diagnostic messages with.
    pub fn logger(&self) -> (r: &Logger)
        ensures
            *r == Logger,
    {
        &self.logger
    }

    /// Begins a resolution.
    ///
    /// With a path from the user the resolution looks at that path and at
    /// nothing else. Without one it looks at the remembered path first, if
    /// there is one, and turns to the registry otherwise. The manager is left
    /// as it is; the result is the resolution with its first request.
    pub fn get_binary_path(&self, user_provided_path: Option<String>) -> (r: Resolution)
        ensures
            r.phase@ == start(
                self.cache(),
                match user_provided_path {
                    Some(path) => Some(path@),
                    None => None,
                },
            ).phase,
            r.messages() == start(
                self.cache(),
                match user_provided_path {
                    Some(path) => Some(path@),
                    None => None,
                },
            ).log,
    {
        let starting = String::from_str("Starting get_binary_path");
        match user_provided_path {
            Some(path) => {
                let using = append("Using user-provided path: ", path.as_str());
                Resolution {
                    phase: Phase::ProbingUserPath { path },
                    log: two_messages(starting, using),
                }
            },
            None => match &self.cached_binary_path {
                Some(path) => noting(Phase::ProbingCache { path: path.clone() }, starting),
                None => Resolution {
                    phase: Phase::FetchingRelease,
                    log: two_messages(starting, fetching_message()),
                },
            },
        }
    }

    /// Takes the host's answer to the pending request and moves the
    /// resolution on.
    ///
    /// The result is the resolution after the step, with the messages that the
    /// step gave rise to. The remembered path changes only where a search on
    /// disk or a download ends with a path, which it then is. An event that
    /// does not answer the pending request leaves everything as it was.
    pub fn resume(&mut self, resolution: Resolution, event: Event) -> (r: Resolution)
        ensures
            final(self).cache() == advance(old(self).cache(), resolution.phase@, event@).cache,
            r.phase@ == advance(old(self).cache(), resolution.phase@, event@).phase,
            r.messages() == advance(old(self).cache(), resolution.phase@, event@).log,
    {
        match (resolution.phase, event) {
            (Phase::ProbingUserPath { path }, Event::Path { kind }) => match kind {
                PathKind::Missing => failed(
                    ResolveError::new(
                        ErrorKind::NotFound,
                        "User-provided netcoredbg binary not found at: ",
                        path.as_str(),
                    ),
                ),
                PathKind::Other => failed(
                    ResolveError::new(
                        ErrorKind::NotAFile,
                        "User-provided path is not a file: ",
                        path.as_str(),
                    ),
                ),
                PathKind::File => quietly(Phase::ResolvingUserPath { path }),
            },
            (Phase::ResolvingUserPath { path }, Event::Absolute { path: result }) => match result {
                Ok(absolute) => quietly(Phase::Done { result: Ok(absolute) }),
                Err(cause) => failed(
                    ResolveError::new(
                        ErrorKind::PathResolution,
                        "Failed to get current directory: ",
                        cause.as_str(),
                    ),
                ),
            },
            (Phase::ProbingCache { path }, Event::Path { kind }) => {
                if kind.is_present() {
                    let message = append("Using cached binary path: ", path.as_str());
                    noting(Phase::Done { result: Ok(path) }, message)
                } else {
                    Resolution {
                        phase: Phase::FetchingRelease,
                        log: two_messages(
                            String::from_str("Cached binary no longer exists, will re-download"),
                            fetching_message(),
                        ),
                    }
                }
            },
            (Phase::FetchingRelease, Event::Release { release: result }) => match result {
                Ok(release) => quietly(Phase::DetectingPlatform { release }),
                Err(cause) => failed(
                    ResolveError::new(
                        ErrorKind::ReleaseFetch,
                        "Failed to fetch latest release: ",
                        cause.as_str(),
                    ),
                ),
            },
            (Phase::DetectingPlatform { release }, Event::Platform { os, arch }) => {
                match get_platform_asset_name(os, arch) {
                    Err(error) => failed(error),
                    Ok(name) => match release.select_asset(name.as_str()) {
                        Err(error) => failed(error),
                        Ok(version) => {
                            let message = append(
                                "Found latest version: ",
                                version.tag_name.as_str(),
                            );
                            noting(
                                Phase::ProbingInstalled {
                                    plan: Plan {
                                        tag: version.tag_name,
                                        url: version.download_url,
                                        asset_name: name,
                                        os,
                                    },
                                },
                                message,
                            )
                        },
                    },
                }
            },
            (Phase::ProbingInstalled { plan }, Event::Path { kind }) => {
                if kind.is_present() {
                    let message = append(
                        "Found existing binary on disk: ",
                        plan.binary_path().as_str(),
                    );
                    noting(Phase::ResolvingInstalled { plan }, message)
                } else {
                    let message = String::from_str(
                        "No existing binary found, downloading from GitHub",
                    );
                    match archive_kind(plan.asset_name.as_str()) {
                        Ok(kind) => noting(Phase::CreatingTempDir { plan, kind }, message),
                        Err(error) => noting(Phase::Done { result: Err(error) }, message),
                    }
                }
            },
            (Phase::ResolvingInstalled { plan }, Event::Absolute { path: result }) => match result {
                Ok(absolute) => {
                    self.cached_binary_path = Some(absolute.clone());
                    quietly(Phase::Done { result: Ok(absolute) })
                },
                Err(cause) => failed(
                    ResolveError::new(
                        ErrorKind::PathResolution,
                        "Failed to get current directory: ",
                        cause.as_str(),
                    ),
                ),
            },
            (Phase::CreatingTempDir { plan, kind }, Event::TempDir { path: result }) => match result {
                Ok(temp_dir) => {
                    let message = append("Created secure temp directory: ", temp_dir.as_str());
                    noting(Phase::Downloading { plan, kind, temp_dir }, message)
                },
                Err(cause) => failed(
                    ResolveError::new(
                        ErrorKind::TempDir,
                        "Failed to create secure temp directory: ",
                        cause.as_str(),
                    ),
                ),
            },
            (Phase::Downloading { plan, kind, temp_dir }, Event::Completed { result }) => {
                match result {
                    Ok(_) => quietly(Phase::CreatingVersionDir { plan, temp_dir }),
                    Err(cause) => abandoning(
                        temp_dir,
                        ErrorKind::Download,
                        "Failed to download netcoredbg: ",
                        cause.as_str(),
                    ),
                }
            },
            (Phase::CreatingVersionDir { plan, temp_dir }, Event::Completed { result }) => {
                match result {
                    Ok(_) => quietly(Phase::Copying { plan, temp_dir }),
                    Err(cause) => abandoning(
                        temp_dir,
                        ErrorKind::Extraction,
                        "Failed to create version directory: ",
                        cause.as_str(),
                    ),
                }
            },
            (Phase::Copying { plan, temp_dir }, Event::Completed { result }) => match result {
                Ok(_) => quietly(Phase::ProbingExtracted { plan, temp_dir }),
                Err(cause) => abandoning(
                    temp_dir,
                    ErrorKind::Extraction,
                    "Failed to copy extracted content: ",
                    cause.as_str(),
                ),
            },
            (Phase::ProbingExtracted { plan, temp_dir }, Event::Path { kind }) => {
                if kind.is_present() {
                    quietly(Phase::MarkingExecutable { plan, temp_dir })
                } else {
                    abandoning(
                        temp_dir,
                        ErrorKind::BinaryNotFoundAfterExtraction,
                        "netcoredbg executable not found at: ",
                        plan.binary_path().as_str(),
                    )
                }
            },
            (Phase::MarkingExecutable { plan, temp_dir }, Event::Completed { result }) => {
                match result {
                    Ok(_) => quietly(Phase::ResolvingExtracted { plan, temp_dir }),
                    Err(cause) => abandoning(
                        temp_dir,
                        ErrorKind::Permission,
                        "Failed to make file executable: ",
                        cause.as_str(),
                    ),
                }
            },
            (Phase::ResolvingExtracted { plan, temp_dir }, Event::Absolute { path: result }) => {
                match result {
                    Ok(absolute) => quietly(Phase::CleaningUp { temp_dir, outcome: Ok(absolute) }),
                    Err(cause) => abandoning(
                        temp_dir,
                        ErrorKind::PathResolution,
                        "Failed to get current directory: ",
                        cause.as_str(),
                    ),
                }
            },
            (Phase::CleaningUp { temp_dir, outcome }, Event::Completed { .. }) => match outcome {
                Ok(absolute) => {
                    let message = append(
                        "Successfully downloaded and extracted to: ",
                        absolute.as_str(),
                    );
                    self.cached_binary_path = Some(absolute.clone());
                    noting(Phase::Done { result: Ok(absolute) }, message)
                },
                Err(error) => failed(error),
            },
            (phase, _) => quietly(phase),
        }
    }

    /// Judges a path to the executable by what the host found there: it has
    /// to be a regular file.
    pub fn validate_binary(&self, binary_path: &str, found: PathKind) -> (r: Result<
        (),
        ResolveError,
    >)
        ensures
            r is Ok <==> found is File,
            found is Missing ==> r is Err && r->Err_0@ == binary_not_found(binary_path@),
            found is Other ==> r is Err && r->Err_0@ == binary_not_a_file(binary_path@),
    {
        match found {
            PathKind::Missing => Err(
                ResolveError::new(
                    ErrorKind::NotFound,
                    "netcoredbg binary not found at: ",
                    binary_path,
                ),
            ),
            PathKind::Other => Err(
                ResolveError::new(
                    ErrorKind::NotAFile,
                    "netcoredbg path is not a file: ",
                    binary_path,
                ),
            ),
            PathKind::File => Ok(()),
        }
    }
}

impl Default for BinaryManager {
    fn default() -> (r: BinaryManager)
        ensures
            r.cache() is None,
    {
        BinaryManager::new()
    }
}

} // verus!
