//! The driver of one resolution run: which document to fetch next, and what
//! each fetched document does to the run. The caller performs the fetches
//! and reports each outcome back as an event.
use vstd::prelude::*;

use crate::assets::{descriptor_asset_index, AssetManager};
use crate::downloads::{index_objects, DownloadManager};
use crate::json::Json;
use crate::libraries::{descriptor_libraries, LibraryManager};
use crate::versions::{find_version, manifest_latest, manifest_versions, VersionManager, VersionView};
use crate::FetchError;

verus! {

/// A stage of the run, as named when it fails.
#[derive(Debug, Clone, Copy, PartialEq, Eq, Structural)]
pub enum Stage {
    Manifest,
    Version,
    AssetIndex,
    Libraries,
    Objects,
}

/// Where one of the two descriptor stages stands.
#[derive(Debug, Clone, Copy, PartialEq, Eq, Structural)]
pub enum Progress {
    Pending,
    Succeeded,
    Failed,
}

/// Where the run stands. The asset-index and library stages both read the
/// selected version's descriptor and may finish in either order.
#[derive(Debug, Clone, Copy, PartialEq, Eq, Structural)]
pub enum Phase {
    Init,
    VersionSelected { asset_index: Progress, libraries: Progress },
    DescriptorsResolved,
    Done,
    Failed(Stage),
}

/// The outcome of one stage, as the run sees it.
#[derive(Debug, Clone, Copy, PartialEq, Eq, Structural)]
pub enum Event {
    /// The manifest was fetched or not, and it names its latest release in
    /// its catalog or not.
    Manifest { fetched: bool, found: bool },
    AssetIndex { fetched: bool },
    Libraries { fetched: bool },
    Objects { fetched: bool },
}

/// What the caller is to do next.
pub enum Request {
    FetchManifest,
    /// Fetch the version descriptor at this address, once for each of the
    /// two descriptor stages that is still pending.
    FetchDescriptor(String),
    FetchObjects(String),
    Finished,
    Abort(Stage),
}

/// The phase once both descriptor stages have reported, or the phase that
/// waits for the one still pending. A failed asset index is reported first.
pub open spec fn join(asset_index: Progress, libraries: Progress) -> Phase {
    if asset_index == Progress::Pending || libraries == Progress::Pending {
        Phase::VersionSelected { asset_index, libraries }
    } else if asset_index == Progress::Failed {
        Phase::Failed(Stage::AssetIndex)
    } else if libraries == Progress::Failed {
        Phase::Failed(Stage::Libraries)
    } else {
        Phase::DescriptorsResolved
    }
}

/// The progress that a fetch outcome gives.
pub open spec fn progress_of(fetched: bool) -> Progress {
    if fetched {
        Progress::Succeeded
    } else {
        Progress::Failed
    }
}

/// The phase after `event`. An event that the phase does not wait for
/// changes nothing.
pub open spec fn next_phase(phase: Phase, event: Event) -> Phase {
    match (phase, event) {
        (Phase::Init, Event::Manifest { fetched, found }) => if !fetched {
            Phase::Failed(Stage::Manifest)
        } else if !found {
            Phase::Failed(Stage::Version)
        } else {
            Phase::VersionSelected { asset_index: Progress::Pending, libraries: Progress::Pending }
        },
        (
            Phase::VersionSelected { asset_index: Progress::Pending, libraries },
            Event::AssetIndex { fetched },
        ) => join(progress_of(fetched), libraries),
        (
            Phase::VersionSelected { asset_index, libraries: Progress::Pending },
            Event::Libraries { fetched },
        ) => join(asset_index, progress_of(fetched)),
        (Phase::DescriptorsResolved, Event::Objects { fetched }) => if fetched {
            Phase::Done
        } else {
            Phase::Failed(Stage::Objects)
        },
        _ => phase,
    }
}

/// The phase after a sequence of events.
pub open spec fn run(phase: Phase, events: Seq<Event>) -> Phase
    decreases events.len(),
{
    if events.len() == 0 {
        phase
    } else {
        run(next_phase(phase, events[0]), events.drop_first())
    }
}

/// Whether the caller is asked to fetch something in this phase.
pub open spec fn fetches_in(phase: Phase) -> bool {
    match phase {
        Phase::Init | Phase::VersionSelected { .. } | Phase::DescriptorsResolved => true,
        _ => false,
    }
}

/// The version that a manifest's latest release pointer selects.
pub open spec fn selected_release(manifest: Json) -> Option<VersionView> {
    find_version(manifest_versions(manifest), manifest_latest(manifest).release, 0)
}

/// A failed run stays failed at the same stage, whatever comes after.
pub proof fn failure_is_final(stage: Stage, events: Seq<Event>)
    ensures
        run(Phase::Failed(stage), events) == Phase::Failed(stage),
    decreases events.len(),
{
    if events.len() > 0 {
        failure_is_final(stage, events.drop_first());
    }
}

/// When the manifest cannot be fetched, the run fails at the manifest
/// stage, stays there whatever else is reported, and asks for no fetch.
pub proof fn manifest_failure_stops_run(found: bool, events: Seq<Event>)
    ensures
        run(Phase::Init, seq![Event::Manifest { fetched: false, found }] + events) == Phase::Failed(
            Stage::Manifest,
        ),
        !fetches_in(run(Phase::Init, seq![Event::Manifest { fetched: false, found }] + events)),
{
    let all = seq![Event::Manifest { fetched: false, found }] + events;
    assert(all.drop_first() =~= events);
    failure_is_final(Stage::Manifest, events);
}

/// The asset-index and library stages may report in either order: the
/// run reaches the same phase.
pub proof fn descriptor_stages_commute(phase: Phase, asset_fetched: bool, libraries_fetched: bool)
    ensures
        next_phase(
            next_phase(phase, Event::AssetIndex { fetched: asset_fetched }),
            Event::Libraries { fetched: libraries_fetched },
        ) == next_phase(
            next_phase(phase, Event::Libraries { fetched: libraries_fetched }),
            Event::AssetIndex { fetched: asset_fetched },
        ),
{
}

/// Computes `next_phase`.
pub fn step(phase: Phase, event: Event) -> (r: Phase)
    ensures
        r == next_phase(phase, event),
{
    match (phase, event) {
        (Phase::Init, Event::Manifest { fetched, found }) => if !fetched {
            Phase::Failed(Stage::Manifest)
        } else if !found {
            Phase::Failed(Stage::Version)
        } else {
            Phase::VersionSelected { asset_index: Progress::Pending, libraries: Progress::Pending }
        },
        (
            Phase::VersionSelected { asset_index: Progress::Pending, libraries },
            Event::AssetIndex { fetched },
        ) => join_progress(progress(fetched), libraries),
        (
            Phase::VersionSelected { asset_index, libraries: Progress::Pending },
            Event::Libraries { fetched },
        ) => join_progress(asset_index, progress(fetched)),
        (Phase::DescriptorsResolved, Event::Objects { fetched }) => if fetched {
            Phase::Done
        } else {
            Phase::Failed(Stage::Objects)
        },
        _ => phase,
    }
}

/// Computes `progress_of`.
pub fn progress(fetched: bool) -> (r: Progress)
    ensures
        r == progress_of(fetched),
{
    if fetched {
        Progress::Succeeded
    } else {
        Progress::Failed
    }
}

/// Computes `join`.
pub fn join_progress(asset_index: Progress, libraries: Progress) -> (r: Phase)
    ensures
        r == join(asset_index, libraries),
{
    if asset_index == Progress::Pending || libraries == Progress::Pending {
        Phase::VersionSelected { asset_index, libraries }
    } else if asset_index == Progress::Failed {
        Phase::Failed(Stage::AssetIndex)
    } else if libraries == Progress::Failed {
        Phase::Failed(Stage::Libraries)
    } else {
        Phase::DescriptorsResolved
    }
}

/// The name under which a failed stage is reported.
pub fn stage_name(stage: Stage) -> (r: String)
    ensures
        r@ == match stage {
            Stage::Manifest => "manifest"@,
            Stage::Version => "version"@,
            Stage::AssetIndex => "asset_index"@,
            Stage::Libraries => "libraries"@,
            Stage::Objects => "objects"@,
        },
{
    match stage {
        Stage::Manifest => "manifest".to_owned(),
        Stage::Version => "version".to_owned(),
        Stage::AssetIndex => "asset_index".to_owned(),
        Stage::Libraries => "libraries".to_owned(),
        Stage::Objects => "objects".to_owned(),
    }
}

/// One resolution run: its phase and what each stage has read.
pub struct Pipeline {
    pub phase: Phase,
    pub versions: VersionManager,
    pub assets: AssetManager,
    pub libraries: LibraryManager,
    pub downloads: DownloadManager,
    pub descriptor_url: String,
}

impl Pipeline {
    /// A run that has fetched nothing yet.
    pub fn new() -> (r: Pipeline)
        ensures
            r.phase == Phase::Init,
            r.versions.versions is None,
            r.versions.latest is None,
            r.assets.asset_index is None,
            r.libraries.libraries is None,
            r.downloads.objects is None,
            r.downloads.failed_downloads is None,
            r.descriptor_url@ == Seq::<char>::empty(),
    {
        Pipeline {
            phase: Phase::Init,
            versions: VersionManager { versions: None, latest: None },
            assets: AssetManager { asset_index: None },
            libraries: LibraryManager { libraries: None },
            downloads: DownloadManager { objects: None, failed_downloads: None },
            descriptor_url: String::new(),
        }
    }

    /// The address of the asset index, once it has been read.
    pub open spec fn objects_url(&self) -> Seq<char> {
        match self.assets.index_view() {
            Some(a) => a.url,
            None => Seq::empty(),
        }
    }

    /// What the caller is to do next.
    pub fn request(&self) -> (r: Request)
        ensures
            match self.phase {
                Phase::Init => r is FetchManifest,
                Phase::VersionSelected { .. } => r matches Request::FetchDescriptor(u) && u@
                    == self.descriptor_url@,
                Phase::DescriptorsResolved => r matches Request::FetchObjects(u) && u@
                    == self.objects_url(),
                Phase::Done => r is Finished,
                Phase::Failed(s) => r == Request::Abort(s),
            },
    {
        match self.phase {
            Phase::Init => Request::FetchManifest,
            Phase::VersionSelected { .. } => Request::FetchDescriptor(self.descriptor_url.clone()),
            Phase::DescriptorsResolved => match &self.assets.asset_index {
                Some(a) => Request::FetchObjects(a.url.clone()),
                None => Request::FetchObjects(String::new()),
            },
            Phase::Done => Request::Finished,
            Phase::Failed(s) => Request::Abort(s),
        }
    }

    /// The stage at which the run failed, if it did.
    pub fn failed_stage(&self) -> (r: Option<Stage>)
        ensures
            match self.phase {
                Phase::Failed(s) => r == Some(s),
                _ => r is None,
            },
    {
        match self.phase {
            Phase::Failed(s) => Some(s),
            _ => None,
        }
    }

    /// Takes the fetched manifest and selects its latest release.
    pub fn on_manifest(&mut self, fetched: &Result<Json, FetchError>)
        ensures
            old(self).phase != Phase::Init ==> *final(self) == *old(self),
            old(self).phase == Phase::Init ==> {
                &&& final(self).phase == next_phase(
                    Phase::Init,
                    Event::Manifest {
                        fetched: fetched.is_ok(),
                        found: fetched.is_ok() && selected_release(fetched->Ok_0) is Some,
                    },
                )
                &&& fetched.is_ok() ==> final(self).versions.catalog() == Some(
                    manifest_versions(fetched->Ok_0),
                )
                &&& fetched.is_ok() ==> final(self).versions.latest_view() == Some(
                    manifest_latest(fetched->Ok_0),
                )
                &&& fetched.is_ok() && selected_release(fetched->Ok_0) is Some
                    ==> final(self).descriptor_url@ == selected_release(fetched->Ok_0)->Some_0.url
            },
            final(self).assets == old(self).assets,
            final(self).libraries == old(self).libraries,
            final(self).downloads == old(self).downloads,
    {
        if self.phase != Phase::Init {
            return;
        }
        if !self.versions.populate(fetched) {
            self.phase = step(self.phase, Event::Manifest { fetched: false, found: false });
            return;
        }
        let url = match &self.versions.latest {
            Some(latest) => match self.versions.get_version(latest.release.as_str()) {
                Some(v) => Some(v.url.clone()),
                None => None,
            },
            None => None,
        };
        match url {
            Some(u) => {
                self.descriptor_url = u;
                self.phase = step(self.phase, Event::Manifest { fetched: true, found: true });
            },
            None => {
                self.phase = step(self.phase, Event::Manifest { fetched: true, found: false });
            },
        }
    }

    /// Takes the descriptor fetched for the asset-index stage.
    pub fn on_asset_index(&mut self, fetched: &Result<Json, FetchError>)
        ensures
            final(self).phase == next_phase(old(self).phase, Event::AssetIndex { fetched: fetched.is_ok() }),
            old(self).phase matches Phase::VersionSelected { asset_index: Progress::Pending, .. }
                && fetched.is_ok() ==> final(self).assets.index_view() == Some(
                descriptor_asset_index(fetched->Ok_0),
            ),
            !(old(self).phase matches Phase::VersionSelected { asset_index: Progress::Pending, .. }
                && fetched.is_ok()) ==> final(self).assets == old(self).assets,
            final(self).versions == old(self).versions,
            final(self).libraries == old(self).libraries,
            final(self).downloads == old(self).downloads,
            final(self).descriptor_url == old(self).descriptor_url,
    {
        match self.phase {
            Phase::VersionSelected { asset_index: Progress::Pending, .. } => {
                let ok = self.assets.populate(fetched);
                self.phase = step(self.phase, Event::AssetIndex { fetched: ok });
            },
            _ => {},
        }
    }

    /// Takes the descriptor fetched for the library stage.
    pub fn on_libraries(&mut self, fetched: &Result<Json, FetchError>)
        ensures
            final(self).phase == next_phase(old(self).phase, Event::Libraries { fetched: fetched.is_ok() }),
            old(self).phase matches Phase::VersionSelected { libraries: Progress::Pending, .. }
                && fetched.is_ok() ==> final(self).libraries.library_list() == Some(
                descriptor_libraries(fetched->Ok_0),
            ),
            !(old(self).phase matches Phase::VersionSelected { libraries: Progress::Pending, .. }
                && fetched.is_ok()) ==> final(self).libraries == old(self).libraries,
            final(self).versions == old(self).versions,
            final(self).assets == old(self).assets,
            final(self).downloads == old(self).downloads,
            final(self).descriptor_url == old(self).descriptor_url,
    {
        match self.phase {
            Phase::VersionSelected { libraries: Progress::Pending, .. } => {
                let ok = self.libraries.populate(fetched);
                self.phase = step(self.phase, Event::Libraries { fetched: ok });
            },
            _ => {},
        }
    }

    /// Takes the fetched asset index.
    pub fn on_objects(&mut self, fetched: &Result<Json, FetchError>)
        ensures
            final(self).phase == next_phase(old(self).phase, Event::Objects { fetched: fetched.is_ok() }),
            old(self).phase == Phase::DescriptorsResolved && fetched.is_ok()
                ==> final(self).downloads.objects_list() == Some(index_objects(fetched->Ok_0)),
            !(old(self).phase == Phase::DescriptorsResolved && fetched.is_ok())
                ==> final(self).downloads == old(self).downloads,
            final(self).downloads.failed_downloads == old(self).downloads.failed_downloads,
            final(self).versions == old(self).versions,
            final(self).assets == old(self).assets,
            final(self).libraries == old(self).libraries,
            final(self).descriptor_url == old(self).descriptor_url,
    {
        if self.phase == Phase::DescriptorsResolved {
            let ok = self.downloads.populate(fetched);
            self.phase = step(self.phase, Event::Objects { fetched: ok });
        }
    }
}

} // verus!
