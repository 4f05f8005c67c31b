//! What holds of every resolution, proved of the state machine.
use vstd::prelude::*;
use crate::error::{
    asset_not_found, unsupported_architecture, user_path_not_a_file, user_path_not_found,
    ErrorKind,
};
use crate::layout::{binary_path, repository, temp_dir_prefix, version_dir};
use crate::machine::{advance, pending, quietly, start, PhaseView, PlanView, Progress};
use crate::platform::{
    archive_kind_of, asset_name, asset_name_has_archive_kind, Architecture, ArchiveKind, Os,
};
use crate::protocol::{answers, uses_network, ActionView, EventView, PathKind};
use crate::release::{asset_names, first_named, first_named_is_first, ReleaseView};

verus! {

/// Where a resolution stands after the host has answered with the given
/// events, one after the other.
pub open spec fn run(cache: Option<Seq<char>>, phase: PhaseView, events: Seq<EventView>) -> Progress
    decreases events.len(),
{
    if events.len() == 0 {
        quietly(cache, phase)
    } else {
        let before = run(cache, phase, events.drop_last());
        advance(before.cache, before.phase, events.last())
    }
}

/// Whether the phase belongs to the handling of a path from the user.
pub open spec fn serves_user_path(phase: PhaseView, path: Seq<char>) -> bool {
    ||| phase == PhaseView::ProbingUserPath { path }
    ||| phase == PhaseView::ResolvingUserPath { path }
    ||| phase is Done
}

/// The temporary directory that exists while the resolution is in the phase.
pub open spec fn temp_dir_in_use(phase: PhaseView) -> Option<Seq<char>> {
    match phase {
        PhaseView::Downloading { temp_dir, .. } => Some(temp_dir),
        PhaseView::CreatingVersionDir { temp_dir, .. } => Some(temp_dir),
        PhaseView::Copying { temp_dir, .. } => Some(temp_dir),
        PhaseView::ProbingExtracted { temp_dir, .. } => Some(temp_dir),
        PhaseView::MarkingExecutable { temp_dir, .. } => Some(temp_dir),
        PhaseView::ResolvingExtracted { temp_dir, .. } => Some(temp_dir),
        PhaseView::CleaningUp { temp_dir, .. } => Some(temp_dir),
        _ => None,
    }
}

/// How many requests are at most still to be answered before the phase's
/// resolution has ended.
pub open spec fn steps_left(phase: PhaseView) -> nat {
    match phase {
        PhaseView::Done { .. } => 0,
        PhaseView::ResolvingUserPath { .. } => 1,
        PhaseView::ProbingUserPath { .. } => 2,
        PhaseView::ResolvingInstalled { .. } => 1,
        PhaseView::CleaningUp { .. } => 1,
        PhaseView::ResolvingExtracted { .. } => 2,
        PhaseView::MarkingExecutable { .. } => 3,
        PhaseView::ProbingExtracted { .. } => 4,
        PhaseView::Copying { .. } => 5,
        PhaseView::CreatingVersionDir { .. } => 6,
        PhaseView::Downloading { .. } => 7,
        PhaseView::CreatingTempDir { .. } => 8,
        PhaseView::ProbingInstalled { .. } => 9,
        PhaseView::DetectingPlatform { .. } => 10,
        PhaseView::FetchingRelease => 11,
        PhaseView::ProbingCache { .. } => 12,
    }
}

/// A path from the user that is a regular file is the result, in the absolute
/// form that the host gives it: the resolution probes the path, has it
/// resolved, and ends, and the remembered path stays as it is.
pub proof fn user_file_is_returned(cache: Option<Seq<char>>, path: Seq<char>, absolute: Seq<char>)
    ensures
        ({
            let begun = start(cache, Some(path));
            let probed = advance(begun.cache, begun.phase, EventView::Path { kind: PathKind::File });
            let resolved = advance(
                probed.cache,
                probed.phase,
                EventView::Absolute { path: Ok(absolute) },
            );
            &&& pending(begun.phase) == ActionView::Probe { path }
            &&& pending(probed.phase) == ActionView::Absolutize { path }
            &&& pending(resolved.phase) == ActionView::Finish { result: Ok(absolute) }
            &&& resolved.cache == cache
        }),
{
}

/// A path from the user at which nothing is found ends the resolution with
/// the not-found failure; one at which something other than a regular file is
/// found ends it with the not-a-file failure.
pub proof fn user_path_must_be_a_file(cache: Option<Seq<char>>, path: Seq<char>, kind: PathKind)
    requires
        !(kind is File),
    ensures
        ({
            let begun = start(cache, Some(path));
            let probed = advance(begun.cache, begun.phase, EventView::Path { kind });
            &&& pending(begun.phase) == ActionView::Probe { path }
            &&& kind is Missing ==> pending(probed.phase) == ActionView::Finish {
                result: Err(user_path_not_found(path)),
            }
            &&& kind is Other ==> pending(probed.phase) == ActionView::Finish {
                result: Err(user_path_not_a_file(path)),
            }
            &&& user_path_not_found(path).kind == ErrorKind::NotFound
            &&& user_path_not_a_file(path).kind == ErrorKind::NotAFile
        }),
{
}

/// With a path from the user, whatever the host answers and however often:
/// the resolution never asks for the network and never touches the
/// remembered path.
pub proof fn user_path_bypasses_cache_and_network(
    cache: Option<Seq<char>>,
    path: Seq<char>,
    events: Seq<EventView>,
)
    ensures
        ({
            let begun = start(cache, Some(path));
            let reached = run(begun.cache, begun.phase, events);
            &&& serves_user_path(reached.phase, path)
            &&& !uses_network(pending(reached.phase))
            &&& reached.cache == cache
        }),
    decreases events.len(),
{
    if events.len() > 0 {
        user_path_bypasses_cache_and_network(cache, path, events.drop_last());
    }
}

/// A remembered path whose file is still there is the result, unchanged, and
/// the probe of that path is the only request of the resolution.
pub proof fn cached_path_is_returned(path: Seq<char>, kind: PathKind)
    requires
        kind.present(),
    ensures
        ({
            let begun = start(Some(path), None);
            let probed = advance(begun.cache, begun.phase, EventView::Path { kind });
            &&& pending(begun.phase) == ActionView::Probe { path }
            &&& pending(probed.phase) == ActionView::Finish { result: Ok(path) }
            &&& probed.cache == Some(path)
        }),
{
}

/// A remembered path whose file is gone is not the result: the resolution
/// turns to the registry for the latest release.
pub proof fn stale_cached_path_is_not_returned(path: Seq<char>)
    ensures
        ({
            let begun = start(Some(path), None);
            let probed = advance(
                begun.cache,
                begun.phase,
                EventView::Path { kind: PathKind::Missing },
            );
            &&& pending(begun.phase) == ActionView::Probe { path }
            &&& probed.phase == PhaseView::FetchingRelease
            &&& pending(probed.phase) == ActionView::FetchLatestRelease {
                repository: repository(),
                require_assets: true,
                pre_release: false,
            }
        }),
{
}

/// A resolution begins at the registry exactly when there is neither a path
/// from the user nor a remembered one; in every other case its first request
/// is a probe, which takes no network.
pub proof fn registry_only_without_paths(cache: Option<Seq<char>>, user_path: Option<Seq<char>>)
    ensures
        start(cache, user_path).phase is FetchingRelease <==> cache is None && user_path is None,
        uses_network(pending(start(cache, user_path).phase)) <==> cache is None
            && user_path is None,
        start(cache, user_path).cache == cache,
{
}

/// The sources are tried in order. A step turns to the registry only from
/// the probe of a remembered path whose file is gone, and it turns to the
/// download only from the probe of a version directory that lacks the
/// executable, and then for the very plan that was probed.
pub proof fn later_source_only_after_earlier_failed(
    cache: Option<Seq<char>>,
    phase: PhaseView,
    event: EventView,
)
    ensures
        ({
            let next = advance(cache, phase, event).phase;
            &&& next is FetchingRelease && !(phase is FetchingRelease) ==> phase is ProbingCache
                && event == (EventView::Path { kind: PathKind::Missing })
            &&& next is CreatingTempDir && !(phase is CreatingTempDir) ==> {
                &&& phase matches PhaseView::ProbingInstalled { plan }
                &&& event == (EventView::Path { kind: PathKind::Missing })
                &&& next matches PhaseView::CreatingTempDir { plan: chosen, kind }
                &&& chosen == plan
                &&& archive_kind_of(plan.asset_name) == Some(kind)
            }
            &&& uses_network(pending(next)) && !uses_network(pending(phase)) ==> phase
                is ProbingCache || phase is CreatingTempDir
        }),
{
}

/// The latest release, once the platform is known, leads to a probe of the
/// executable in the release's version directory, where the release has the
/// platform's asset; the plan holds the release's tag and the URL of the first
/// asset of that name.
pub proof fn release_leads_to_version_dir(
    cache: Option<Seq<char>>,
    release: ReleaseView,
    os: Os,
    arch: Architecture,
)
    requires
        !(arch is X86),
        exists|i: int| 0 <= i < release.assets.len() && release.assets[i].name == asset_name(os, arch)->0,
    ensures
        ({
            let fetched = advance(
                cache,
                PhaseView::FetchingRelease,
                EventView::Release { release: Ok(release) },
            );
            let detected = advance(fetched.cache, fetched.phase, EventView::Platform { os, arch });
            let i = first_named(release.assets, asset_name(os, arch)->0)->0;
            &&& pending(fetched.phase) == ActionView::DetectPlatform
            &&& 0 <= i < release.assets.len()
            &&& detected.phase == PhaseView::ProbingInstalled {
                plan: PlanView {
                    tag: release.version,
                    url: release.assets[i].download_url,
                    asset_name: asset_name(os, arch)->0,
                    os,
                },
            }
            &&& pending(detected.phase) == ActionView::Probe {
                path: binary_path(release.version, os),
            }
            &&& detected.cache == cache
        }),
{
    first_named_is_first(release.assets, asset_name(os, arch)->0);
}

/// A release already unpacked is used as it is: where the version directory
/// holds the executable, the resolution has its path resolved and ends with
/// it, and remembers it. It creates no directory and downloads nothing.
pub proof fn installed_release_is_reused(
    cache: Option<Seq<char>>,
    plan: PlanView,
    kind: PathKind,
    absolute: Seq<char>,
)
    requires
        kind.present(),
    ensures
        ({
            let found = advance(
                cache,
                PhaseView::ProbingInstalled { plan },
                EventView::Path { kind },
            );
            let resolved = advance(
                found.cache,
                found.phase,
                EventView::Absolute { path: Ok(absolute) },
            );
            &&& pending(found.phase) == ActionView::Absolutize {
                path: binary_path(plan.tag, plan.os),
            }
            &&& pending(resolved.phase) == ActionView::Finish { result: Ok(absolute) }
            &&& resolved.cache == Some(absolute)
        }),
{
}

/// On 32-bit x86 the resolution ends with the unsupported-architecture
/// failure as soon as the platform is known, whatever the operating system
/// and the release.
pub proof fn x86_is_unsupported(cache: Option<Seq<char>>, release: ReleaseView, os: Os)
    ensures
        advance(
            cache,
            PhaseView::DetectingPlatform { release },
            EventView::Platform { os, arch: Architecture::X86 },
        ) == quietly(cache, PhaseView::Done { result: Err(unsupported_architecture()) }),
        unsupported_architecture().kind == ErrorKind::UnsupportedArchitecture,
{
}

/// A release without the platform's asset ends the resolution with the
/// asset-not-found failure, which names the asset looked for and lists the
/// names of all assets of the release.
pub proof fn missing_asset_lists_what_is_there(
    cache: Option<Seq<char>>,
    release: ReleaseView,
    os: Os,
    arch: Architecture,
)
    requires
        !(arch is X86),
        forall|i: int| 0 <= i < release.assets.len() ==> release.assets[i].name != asset_name(os, arch)->0,
    ensures
        advance(
            cache,
            PhaseView::DetectingPlatform { release },
            EventView::Platform { os, arch },
        ) == quietly(
            cache,
            PhaseView::Done {
                result: Err(asset_not_found(asset_name(os, arch)->0, asset_names(release.assets))),
            },
        ),
        asset_not_found(asset_name(os, arch)->0, asset_names(release.assets)).kind
            == ErrorKind::AssetNotFound,
{
    first_named_is_first(release.assets, asset_name(os, arch)->0);
}

/// The asset chosen for a platform always has a known archive kind, so a
/// download that follows the platform's detection never fails for its file
/// type: ZIP on Windows, gzipped tar elsewhere.
pub proof fn chosen_asset_has_archive_kind(
    cache: Option<Seq<char>>,
    release: ReleaseView,
    os: Os,
    arch: Architecture,
)
    ensures
        ({
            let detected = advance(
                cache,
                PhaseView::DetectingPlatform { release },
                EventView::Platform { os, arch },
            );
            let missing = advance(
                detected.cache,
                detected.phase,
                EventView::Path { kind: PathKind::Missing },
            );
            detected.phase matches PhaseView::ProbingInstalled { plan } ==> missing.phase
                == PhaseView::CreatingTempDir {
                plan,
                kind: if os is Windows {
                    ArchiveKind::Zip
                } else {
                    ArchiveKind::GzipTar
                },
            }
        }),
{
    if !(arch is X86) {
        asset_name_has_archive_kind(os, arch);
    }
}

/// An answer to the pending request brings the resolution nearer to its end;
/// any other event changes nothing. A resolution has ended exactly when no
/// step is left, and none takes more than twelve.
pub proof fn every_answer_is_progress(cache: Option<Seq<char>>, phase: PhaseView, event: EventView)
    ensures
        answers(event, pending(phase)) ==> steps_left(advance(cache, phase, event).phase)
            < steps_left(phase),
        !answers(event, pending(phase)) ==> advance(cache, phase, event) == quietly(cache, phase),
        steps_left(phase) == 0 <==> phase is Done,
        steps_left(phase) == 0 <==> pending(phase) is Finish,
        steps_left(phase) <= 12,
{
}

/// A temporary directory, once created, is removed before the resolution
/// ends, whether the download succeeds or fails: every phase that has one
/// leads to another that has the same, and only its removal leads to the end.
pub proof fn temp_dir_is_removed(cache: Option<Seq<char>>, phase: PhaseView, event: EventView)
    requires
        temp_dir_in_use(phase) is Some,
    ensures
        ({
            let next = advance(cache, phase, event).phase;
            &&& !(phase is Done)
            &&& temp_dir_in_use(next) == temp_dir_in_use(phase) || (phase is CleaningUp
                && next is Done)
            &&& phase is CleaningUp ==> pending(phase) == ActionView::RemoveTempDir {
                path: temp_dir_in_use(phase)->0,
            }
        }),
{
}

/// The remembered path changes only when a search on disk or a download ends
/// with a path: that path is then the result and the one remembered.
pub proof fn cache_holds_latest_result(cache: Option<Seq<char>>, phase: PhaseView, event: EventView)
    ensures
        ({
            let next = advance(cache, phase, event);
            next.cache != cache ==> {
                &&& phase is ResolvingInstalled || phase is CleaningUp
                &&& next.phase matches PhaseView::Done { result: Ok(path) }
                &&& next.cache == Some(path)
            }
        }),
{
}

/// The download's outcome is the resolution's: what was settled before the
/// temporary directory's removal is the result after it, and a path among it
/// is remembered.
pub proof fn removal_keeps_outcome(
    cache: Option<Seq<char>>,
    temp_dir: Seq<char>,
    outcome: Result<Seq<char>, crate::error::ResolveErrorView>,
    removal: Result<(), Seq<char>>,
)
    ensures
        ({
            let next = advance(
                cache,
                PhaseView::CleaningUp { temp_dir, outcome },
                EventView::Completed { result: removal },
            );
            &&& next.phase == PhaseView::Done { result: outcome }
            &&& outcome is Ok ==> next.cache == Some(outcome->Ok_0)
            &&& outcome is Err ==> next.cache == cache
        }),
{
}

/// A resolution that has ended stays as it is, whatever the host sends.
pub proof fn done_is_final(
    cache: Option<Seq<char>>,
    result: Result<Seq<char>, crate::error::ResolveErrorView>,
    events: Seq<EventView>,
)
    ensures
        run(cache, PhaseView::Done { result }, events) == quietly(
            cache,
            PhaseView::Done { result },
        ),
    decreases events.len(),
{
    if events.len() > 0 {
        done_is_final(cache, result, events.drop_last());
    }
}

/// A download in which every request succeeds makes its requests in this
/// order: a temporary directory named after the tag; the download of the
/// asset into it, unpacked by the archive kind; the version directory; the
/// copy of the temporary directory's contents into the version directory; a
/// probe of the executable there; the executable flag; the executable's
/// absolute path; the removal of the temporary directory. It ends with the
/// absolute path, which is then the remembered one.
pub proof fn fresh_download_runs_in_order(
    cache: Option<Seq<char>>,
    plan: PlanView,
    kind: ArchiveKind,
    temp_dir: Seq<char>,
    extracted: PathKind,
    absolute: Seq<char>,
    removal: Result<(), Seq<char>>,
)
    requires
        archive_kind_of(plan.asset_name) == Some(kind),
        extracted.present(),
    ensures
        ({
            let done = EventView::Completed { result: Ok(()) };
            let s0 = advance(
                cache,
                PhaseView::ProbingInstalled { plan },
                EventView::Path { kind: PathKind::Missing },
            );
            let s1 = advance(s0.cache, s0.phase, EventView::TempDir { path: Ok(temp_dir) });
            let s2 = advance(s1.cache, s1.phase, done);
            let s3 = advance(s2.cache, s2.phase, done);
            let s4 = advance(s3.cache, s3.phase, done);
            let s5 = advance(s4.cache, s4.phase, EventView::Path { kind: extracted });
            let s6 = advance(s5.cache, s5.phase, done);
            let s7 = advance(s6.cache, s6.phase, EventView::Absolute { path: Ok(absolute) });
            let s8 = advance(s7.cache, s7.phase, EventView::Completed { result: removal });
            &&& pending(s0.phase) == ActionView::CreateTempDir { prefix: temp_dir_prefix(plan.tag) }
            &&& pending(s1.phase) == ActionView::Download {
                url: plan.url,
                destination: temp_dir,
                kind,
            }
            &&& pending(s2.phase) == ActionView::CreateDir { path: version_dir(plan.tag) }
            &&& pending(s3.phase) == ActionView::CopyContents {
                from: temp_dir,
                to: version_dir(plan.tag),
                content_only: true,
            }
            &&& pending(s4.phase) == ActionView::Probe { path: binary_path(plan.tag, plan.os) }
            &&& pending(s5.phase) == ActionView::MakeExecutable {
                path: binary_path(plan.tag, plan.os),
            }
            &&& pending(s6.phase) == ActionView::Absolutize {
                path: binary_path(plan.tag, plan.os),
            }
            &&& pending(s7.phase) == ActionView::RemoveTempDir { path: temp_dir }
            &&& pending(s8.phase) == ActionView::Finish { result: Ok(absolute) }
            &&& s7.cache == cache
            &&& s8.cache == Some(absolute)
        }),
{
}

} // verus!
