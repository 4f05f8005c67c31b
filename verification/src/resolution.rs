//! One resolution in progress: the executable counterpart of the phases.
use vstd::prelude::*;
use vstd::string::*;
use crate::error::ResolveError;
use crate::layout::{binary_path_for, repository_name, temp_dir_prefix_for, version_dir_name};
use crate::machine::{pending, PhaseView, PlanView};
use crate::platform::{ArchiveKind, Os};
use crate::protocol::{outcome_view, Action};
use crate::release::Release;

verus! {

/// What the search on disk and the download work on: the release to
/// install, the asset chosen from it, and the operating system.
#[derive(Debug, PartialEq, Eq)]
pub struct Plan {
    pub tag: String,
    pub url: String,
    pub asset_name: String,
    pub os: Os,
}

impl View for Plan {
    type V = PlanView;

    open spec fn view(&self) -> PlanView {
        PlanView { tag: self.tag@, url: self.url@, asset_name: self.asset_name@, os: self.os }
    }
}

impl Plan {
    /// The directory that the release is unpacked into.
    pub fn version_dir(&self) -> (r: String)
        ensures
            r@ == self@.version_dir(),
    {
        version_dir_name(self.tag.as_str())
    }

    /// The executable's path inside that directory.
    pub fn binary_path(&self) -> (r: String)
        ensures
            r@ == self@.binary_path(),
    {
        binary_path_for(self.tag.as_str(), self.os)
    }
}

/// Where a resolution stands; see [`PhaseView`] for the meaning of each phase.
#[derive(Debug, PartialEq, Eq)]
pub enum Phase {
    ProbingUserPath { path: String },
    ResolvingUserPath { path: String },
    ProbingCache { path: String },
    FetchingRelease,
    DetectingPlatform { release: Release },
    ProbingInstalled { plan: Plan },
    ResolvingInstalled { plan: Plan },
    CreatingTempDir { plan: Plan, kind: ArchiveKind },
    Downloading { plan: Plan, kind: ArchiveKind, temp_dir: String },
    CreatingVersionDir { plan: Plan, temp_dir: String },
    Copying { plan: Plan, temp_dir: String },
    ProbingExtracted { plan: Plan, temp_dir: String },
    MarkingExecutable { plan: Plan, temp_dir: String },
    ResolvingExtracted { plan: Plan, temp_dir: String },
    CleaningUp { temp_dir: String, outcome: Result<String, ResolveError> },
    Done { result: Result<String, ResolveError> },
}

impl View for Phase {
    type V = PhaseView;

    open spec fn view(&self) -> PhaseView {
        match *self {
            Phase::ProbingUserPath { path } => PhaseView::ProbingUserPath { path: path@ },
            Phase::ResolvingUserPath { path } => PhaseView::ResolvingUserPath { path: path@ },
            Phase::ProbingCache { path } => PhaseView::ProbingCache { path: path@ },
            Phase::FetchingRelease => PhaseView::FetchingRelease,
            Phase::DetectingPlatform { release } => PhaseView::DetectingPlatform {
                release: release@,
            },
            Phase::ProbingInstalled { plan } => PhaseView::ProbingInstalled { plan: plan@ },
            Phase::ResolvingInstalled { plan } => PhaseView::ResolvingInstalled { plan: plan@ },
            Phase::CreatingTempDir { plan, kind } => PhaseView::CreatingTempDir {
                plan: plan@,
                kind,
            },
            Phase::Downloading { plan, kind, temp_dir } => PhaseView::Downloading {
                plan: plan@,
                kind,
                temp_dir: temp_dir@,
            },
            Phase::CreatingVersionDir { plan, temp_dir } => PhaseView::CreatingVersionDir {
                plan: plan@,
                temp_dir: temp_dir@,
            },
            Phase::Copying { plan, temp_dir } => PhaseView::Copying {
                plan: plan@,
                temp_dir: temp_dir@,
            },
            Phase::ProbingExtracted { plan, temp_dir } => PhaseView::ProbingExtracted {
                plan: plan@,
                temp_dir: temp_dir@,
            },
            Phase::MarkingExecutable { plan, temp_dir } => PhaseView::MarkingExecutable {
                plan: plan@,
                temp_dir: temp_dir@,
            },
            Phase::ResolvingExtracted { plan, temp_dir } => PhaseView::ResolvingExtracted {
                plan: plan@,
                temp_dir: temp_dir@,
            },
            Phase::CleaningUp { temp_dir, outcome } => PhaseView::CleaningUp {
                temp_dir: temp_dir@,
                outcome: outcome_view(outcome),
            },
            Phase::Done { result } => PhaseView::Done { result: outcome_view(result) },
        }
    }
}

/// A copy of a resolution's result.
pub fn clone_outcome(result: &Result<String, ResolveError>) -> (r: Result<String, ResolveError>)
    ensures
        r == *result,
{
    match result {
        Ok(path) => Ok(path.clone()),
        Err(error) => Err(error.clone()),
    }
}

/// A resolution in progress: its phase, and the messages for the diagnostic
/// log that its latest step gave rise to.
#[derive(Debug, PartialEq, Eq)]
pub struct Resolution {
    pub phase: Phase,
    pub log: Vec<String>,
}

impl Resolution {
    /// The messages of the latest step, as texts.
    pub open spec fn messages(&self) -> Seq<Seq<char>> {
        self.log.deep_view()
    }

    /// The request that the host has to carry out now.
    pub fn action(&self) -> (r: Action)
        ensures
            r@ == pending(self.phase@),
    {
        match &self.phase {
            Phase::ProbingUserPath { path } => Action::Probe { path: path.clone() },
            Phase::ResolvingUserPath { path } => Action::Absolutize { path: path.clone() },
            Phase::ProbingCache { path } => Action::Probe { path: path.clone() },
            Phase::FetchingRelease => Action::FetchLatestRelease {
                repository: repository_name(),
                require_assets: true,
                pre_release: false,
            },
            Phase::DetectingPlatform { .. } => Action::DetectPlatform,
            Phase::ProbingInstalled { plan } => Action::Probe { path: plan.binary_path() },
            Phase::ResolvingInstalled { plan } => Action::Absolutize { path: plan.binary_path() },
            Phase::CreatingTempDir { plan, .. } => Action::CreateTempDir {
                prefix: temp_dir_prefix_for(plan.tag.as_str()),
            },
            Phase::Downloading { plan, kind, temp_dir } => Action::Download {
                url: plan.url.clone(),
                destination: temp_dir.clone(),
                kind: *kind,
            },
            Phase::CreatingVersionDir { plan, .. } => Action::CreateDir { path: plan.version_dir() },
            Phase::Copying { plan, temp_dir } => Action::CopyContents {
                from: temp_dir.clone(),
                to: plan.version_dir(),
                content_only: true,
            },
            Phase::ProbingExtracted { plan, .. } => Action::Probe { path: plan.binary_path() },
            Phase::MarkingExecutable { plan, .. } => Action::MakeExecutable {
                path: plan.binary_path(),
            },
            Phase::ResolvingExtracted { plan, .. } => Action::Absolutize {
                path: plan.binary_path(),
            },
            Phase::CleaningUp { temp_dir, .. } => Action::RemoveTempDir { path: temp_dir.clone() },
            Phase::Done { result } => Action::Finish { result: clone_outcome(result) },
        }
    }

    /// Whether the resolution has ended.
    pub fn is_done(&self) -> (r: bool)
        ensures
            r == (self.phase@ is Done),
            r == (pending(self.phase@) is Finish),
    {
        match &self.phase {
            Phase::Done { .. } => true,
            _ => false,
        }
    }
}

} // verus!
