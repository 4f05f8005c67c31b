//! What passes between a resolution and its host: the requests that the
//! host carries out, and the answers it hands back.
use vstd::prelude::*;
use vstd::string::*;
use crate::error::{ResolveError, ResolveErrorView};
use crate::platform::{Architecture, ArchiveKind, Os};
use crate::release::{Release, ReleaseView};

verus! {

/// What the host finds at a path.
#[derive(Clone, Copy, Debug, PartialEq, Eq, Hash, Structural)]
pub enum PathKind {
    /// Nothing is there.
    Missing,
    /// A regular file.
    File,
    /// Something else, such as a directory.
    Other,
}

impl PathKind {
    /// Whether anything is at the path.
    pub open spec fn present(self) -> bool {
        !(self is Missing)
    }

    /// Whether anything is at the path.
    #[verifier::when_used_as_spec(present)]
    pub fn is_present(self) -> (r: bool)
        ensures
            r == self.present(),
    {
        match self {
            PathKind::Missing => false,
            _ => true,
        }
    }
}

/// What the host has to do next. Every request but the last is answered
/// with the [`Event`] named in its description.
#[derive(Debug, PartialEq, Eq)]
pub enum Action {
    /// Look at the path; answered with [`Event::Path`].
    Probe { path: String },
    /// Resolve the path against the working directory, keeping an absolute
    /// path as it is; answered with [`Event::Absolute`].
    Absolutize { path: String },
    /// Ask the registry for the latest release of the repository; answered
    /// with [`Event::Release`].
    FetchLatestRelease { repository: String, require_assets: bool, pre_release: bool },
    /// Find out the platform the editor runs on; answered with
    /// [`Event::Platform`].
    DetectPlatform,
    /// Create a fresh temporary directory whose name starts with the prefix;
    /// answered with [`Event::TempDir`].
    CreateTempDir { prefix: String },
    /// Download the URL and unpack it, as an archive of the given kind, into
    /// the destination; answered with [`Event::Completed`].
    Download { url: String, destination: String, kind: ArchiveKind },
    /// Create the directory and its missing parents; answered with
    /// [`Event::Completed`].
    CreateDir { path: String },
    /// Copy the first directory into the second; answered with
    /// [`Event::Completed`]. With `content_only` what the first directory holds
    /// lands directly in the second; without it the directory itself would be
    /// put there, one level deeper.
    CopyContents { from: String, to: String, content_only: bool },
    /// Mark the file as executable; answered with [`Event::Completed`].
    MakeExecutable { path: String },
    /// Remove the temporary directory with all it holds; answered with
    /// [`Event::Completed`], whose result is not looked at.
    RemoveTempDir { path: String },
    /// Nothing is left to do: the resolution has ended with this result.
    Finish { result: Result<String, ResolveError> },
}

/// The mathematical content of an [`Action`].
pub enum ActionView {
    Probe { path: Seq<char> },
    Absolutize { path: Seq<char> },
    FetchLatestRelease { repository: Seq<char>, require_assets: bool, pre_release: bool },
    DetectPlatform,
    CreateTempDir { prefix: Seq<char> },
    Download { url: Seq<char>, destination: Seq<char>, kind: ArchiveKind },
    CreateDir { path: Seq<char> },
    CopyContents { from: Seq<char>, to: Seq<char>, content_only: bool },
    MakeExecutable { path: Seq<char> },
    RemoveTempDir { path: Seq<char> },
    Finish { result: Result<Seq<char>, ResolveErrorView> },
}

/// The content of a resolution's result.
pub open spec fn outcome_view(result: Result<String, ResolveError>) -> Result<
    Seq<char>,
    ResolveErrorView,
> {
    match result {
        Ok(path) => Ok(path@),
        Err(e) => Err(e@),
    }
}

impl View for Action {
    type V = ActionView;

    open spec fn view(&self) -> ActionView {
        match *self {
            Action::Probe { path } => ActionView::Probe { path: path@ },
            Action::Absolutize { path } => ActionView::Absolutize { path: path@ },
            Action::FetchLatestRelease { repository, require_assets, pre_release } => {
                ActionView::FetchLatestRelease {
                    repository: repository@,
                    require_assets,
                    pre_release,
                }
            },
            Action::DetectPlatform => ActionView::DetectPlatform,
            Action::CreateTempDir { prefix } => ActionView::CreateTempDir { prefix: prefix@ },
            Action::Download { url, destination, kind } => ActionView::Download {
                url: url@,
                destination: destination@,
                kind,
            },
            Action::CreateDir { path } => ActionView::CreateDir { path: path@ },
            Action::CopyContents { from, to, content_only } => ActionView::CopyContents {
                from: from@,
                to: to@,
                content_only,
            },
            Action::MakeExecutable { path } => ActionView::MakeExecutable { path: path@ },
            Action::RemoveTempDir { path } => ActionView::RemoveTempDir { path: path@ },
            Action::Finish { result } => ActionView::Finish { result: outcome_view(result) },
        }
    }
}

/// The host's answer to a request.
#[derive(Debug, PartialEq, Eq)]
pub enum Event {
    /// What was found at the probed path.
    Path { kind: PathKind },
    /// The absolute path, or why the working directory could not be had.
    Absolute { path: Result<String, String> },
    /// The latest release, or why the registry gave none.
    Release { release: Result<Release, String> },
    /// The platform the editor runs on.
    Platform { os: Os, arch: Architecture },
    /// The path of the temporary directory, or why none was created.
    TempDir { path: Result<String, String> },
    /// The requested change was made, or why it was not.
    Completed { result: Result<(), String> },
}

/// The mathematical content of an [`Event`].
pub enum EventView {
    Path { kind: PathKind },
    Absolute { path: Result<Seq<char>, Seq<char>> },
    Release { release: Result<ReleaseView, Seq<char>> },
    Platform { os: Os, arch: Architecture },
    TempDir { path: Result<Seq<char>, Seq<char>> },
    Completed { result: Result<(), Seq<char>> },
}

impl View for Event {
    type V = EventView;

    open spec fn view(&self) -> EventView {
        match *self {
            Event::Path { kind } => EventView::Path { kind },
            Event::Absolute { path } => EventView::Absolute {
                path: match path {
                    Ok(path) => Ok(path@),
                    Err(cause) => Err(cause@),
                },
            },
            Event::Release { release } => EventView::Release {
                release: match release {
                    Ok(release) => Ok(release@),
                    Err(cause) => Err(cause@),
                },
            },
            Event::Platform { os, arch } => EventView::Platform { os, arch },
            Event::TempDir { path } => EventView::TempDir {
                path: match path {
                    Ok(path) => Ok(path@),
                    Err(cause) => Err(cause@),
                },
            },
            Event::Completed { result } => EventView::Completed {
                result: match result {
                    Ok(_) => Ok(()),
                    Err(cause) => Err(cause@),
                },
            },
        }
    }
}

/// Whether the event is the kind of answer that the request calls for.
pub open spec fn answers(event: EventView, action: ActionView) -> bool {
    match action {
        ActionView::Probe { .. } => event is Path,
        ActionView::Absolutize { .. } => event is Absolute,
        ActionView::FetchLatestRelease { .. } => event is Release,
        ActionView::DetectPlatform => event is Platform,
        ActionView::CreateTempDir { .. } => event is TempDir,
        ActionView::Download { .. } => event is Completed,
        ActionView::CreateDir { .. } => event is Completed,
        ActionView::CopyContents { .. } => event is Completed,
        ActionView::MakeExecutable { .. } => event is Completed,
        ActionView::RemoveTempDir { .. } => event is Completed,
        ActionView::Finish { .. } => false,
    }
}

/// Whether carrying out the request takes the network.
pub open spec fn uses_network(action: ActionView) -> bool {
    action is FetchLatestRelease || action is Download
}

} // verus!
