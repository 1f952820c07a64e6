use vstd::prelude::*;
use crate::compile::{compiler_named, plan_build, planned, validate, is_complete, Invocation, Presence};
use crate::discovery::{discover, files_in, Entry};
use crate::error::{BuildError, ManifestError};
use crate::manifest::{completes, has_name, texts, Manifest};
use crate::paths::{build_path, headers_path, manifest_path, src_path, ProjectPaths};

verus! {

/// Why a build stopped.
#[derive(Debug, Clone, PartialEq, Eq)]
pub enum BuildFailure {
    Build(BuildError),
    Manifest(ManifestError),
    Io(String),
}

/// Where a build stands. A build moves forward one step per event and stops
/// for good at `Finished` or `Failed`.
#[derive(Debug, Clone, PartialEq, Eq)]
pub enum BuildState {
    Start,
    Validated,
    ManifestLoaded { manifest: Manifest },
    SourcesDiscovered { manifest: Manifest, sources: Vec<String> },
    Dispatched,
    Finished,
    Failed(BuildFailure),
}

/// What the outside world reports back to a build.
#[derive(Debug)]
pub enum BuildEvent {
    /// Which project paths exist.
    Probed(Presence),
    /// The manifest file's text was read and parsed. A record without a
    /// project name is refused here.
    ManifestRead(Result<Manifest, ManifestError>),
    /// A directory tree was read.
    Listed(Vec<Entry>),
    /// Reading the file system failed.
    IoFailed(String),
    /// The compiler exited, whatever its status.
    CompilerExited,
}

/// What a build asks the outside world to do next.
#[derive(Debug, Clone, PartialEq, Eq)]
pub enum BuildAction {
    /// Check which of these paths exist.
    Probe(ProjectPaths),
    /// Read and parse the manifest at this path.
    ReadManifest(String),
    /// Read the directory tree at this path.
    Discover(String),
    /// Start this compiler process and wait for it.
    Spawn(Invocation),
    /// Report the elapsed time; the build is over.
    Report,
    /// The build failed, for the reason its state holds; nothing more is to
    /// be done.
    Stop,
    /// The event did not fit the build's state; nothing is to be done.
    Idle,
}

pub open spec fn stopped(f: BuildFailure, r: (BuildState, BuildAction)) -> bool {
    r == (BuildState::Failed(f), BuildAction::Stop)
}

/// The transition relation of a build of the project at `root`.
pub open spec fn steps(root: Seq<char>, s: BuildState, e: BuildEvent, r: (BuildState, BuildAction)) -> bool {
    match (s, e) {
        (BuildState::Finished, _) | (BuildState::Failed(_), _) => r == (s, BuildAction::Idle),
        (_, BuildEvent::IoFailed(m)) => stopped(BuildFailure::Io(m), r),
        (BuildState::Start, BuildEvent::Probed(p)) => if is_complete(p) {
            &&& r.0 == BuildState::Validated
            &&& (r.1 matches BuildAction::ReadManifest(q) && q@ == manifest_path(root))
        } else {
            stopped(BuildFailure::Build(BuildError::InvalidDirectory), r)
        },
        (BuildState::Validated, BuildEvent::ManifestRead(Ok(m))) => if has_name(m) {
            &&& (r.0 matches BuildState::ManifestLoaded { manifest: m2 } && completes(m, m2))
            &&& (r.1 matches BuildAction::Discover(q) && q@ == src_path(root))
        } else {
            &&& (r.0 matches BuildState::Failed(BuildFailure::Manifest(ManifestError::InvalidManifest(msg)))
                && msg@ == "meta.name is empty"@)
            &&& r.1 == BuildAction::Stop
        },
        (BuildState::Validated, BuildEvent::ManifestRead(Err(me))) => stopped(
            BuildFailure::Manifest(me),
            r,
        ),
        (BuildState::ManifestLoaded { manifest }, BuildEvent::Listed(es)) => {
            &&& (r.0 matches BuildState::SourcesDiscovered { manifest: m2, sources } && m2 == manifest
                && texts(sources@) == files_in(es@))
            &&& (r.1 matches BuildAction::Discover(q) && q@ == headers_path(root))
        },
        (BuildState::SourcesDiscovered { manifest, sources }, BuildEvent::Listed(es)) => if compiler_named(
            manifest.build.compiler@,
        ) is Some {
            &&& r.0 == BuildState::Dispatched
            &&& (r.1 matches BuildAction::Spawn(inv) && planned(
                root,
                manifest,
                texts(sources@),
                files_in(es@),
                inv,
            ))
        } else {
            stopped(BuildFailure::Build(BuildError::InvalidCompiler), r)
        },
        (BuildState::Dispatched, BuildEvent::CompilerExited) => r == (
            BuildState::Finished,
            BuildAction::Report,
        ),
        _ => r == (s, BuildAction::Idle),
    }
}

impl BuildState {
    /// A build starts by probing the project's paths.
    pub fn start(root: &str) -> (r: (BuildState, BuildAction))
        ensures
            r.0 == BuildState::Start,
            r.1 matches BuildAction::Probe(p) && p.manifest@ == manifest_path(root@)
                && p.src@ == src_path(root@) && p.headers@ == headers_path(root@)
                && p.build@ == build_path(root@),
    {
        (BuildState::Start, BuildAction::Probe(ProjectPaths::of(root)))
    }

    /// Moves a build one step forward on an event.
    pub fn next(self, root: &str, event: BuildEvent) -> (r: (BuildState, BuildAction))
        ensures
            steps(root@, self, event, r),
    {
        match self {
            BuildState::Finished | BuildState::Failed(_) => {
                return (self, BuildAction::Idle);
            },
            _ => {},
        }
        match event {
            BuildEvent::IoFailed(m) => {
                return (BuildState::Failed(BuildFailure::Io(m)), BuildAction::Stop);
            },
            _ => {},
        }
        match (self, event) {
            (BuildState::Start, BuildEvent::Probed(p)) => match validate(&p) {
                Ok(()) => (
                    BuildState::Validated,
                    BuildAction::ReadManifest(ProjectPaths::of(root).manifest),
                ),
                Err(e) => (
                    BuildState::Failed(BuildFailure::Build(e)),
                    BuildAction::Stop,
                ),
            },
            (BuildState::Validated, BuildEvent::ManifestRead(Ok(m))) => match m.checked() {
                Ok(manifest) => (
                    BuildState::ManifestLoaded { manifest },
                    BuildAction::Discover(ProjectPaths::of(root).src),
                ),
                Err(me) => (BuildState::Failed(BuildFailure::Manifest(me)), BuildAction::Stop),
            },
            (BuildState::Validated, BuildEvent::ManifestRead(Err(me))) => {
                (BuildState::Failed(BuildFailure::Manifest(me)), BuildAction::Stop)
            },
            (BuildState::ManifestLoaded { manifest }, BuildEvent::Listed(es)) => {
                let sources = discover(&es);
                (
                    BuildState::SourcesDiscovered { manifest, sources },
                    BuildAction::Discover(ProjectPaths::of(root).headers),
                )
            },
            (BuildState::SourcesDiscovered { manifest, sources }, BuildEvent::Listed(es)) => {
                let headers = discover(&es);
                match plan_build(root, &manifest, &sources, &headers) {
                    Ok(inv) => (BuildState::Dispatched, BuildAction::Spawn(inv)),
                    Err(e) => (
                        BuildState::Failed(BuildFailure::Build(e)),
                        BuildAction::Stop,
                    ),
                }
            },
            (BuildState::Dispatched, BuildEvent::CompilerExited) => (
                BuildState::Finished,
                BuildAction::Report,
            ),
            (s, _) => (s, BuildAction::Idle),
        }
    }
}

} // verus!
