//! The version manifest: the catalog of known versions and the latest
//! release and snapshot ids.
use vstd::prelude::*;

use crate::json::{elements, elements_of, field, member, same_text, text, text_of, unsigned, unsigned_of, Json};
use crate::FetchError;

verus! {

/// The release channel of a version.
#[derive(Debug, Clone, Copy, PartialEq, Eq, Structural)]
pub enum VersionType {
    Snapshot,
    Release,
    OldBeta,
    OldAlpha,
}

/// The ids that the manifest names as the newest release and snapshot.
pub struct LatestVersion {
    pub snapshot: String,
    pub release: String,
}

/// One entry of the catalog.
pub struct Version {
    pub id: String,
    pub version_type: VersionType,
    pub url: String,
    pub time: String,
    pub release_time: String,
    pub sha1: String,
    pub compliance_level: u8,
}

/// What a `Version` holds, with its strings as character sequences.
pub struct VersionView {
    pub id: Seq<char>,
    pub version_type: VersionType,
    pub url: Seq<char>,
    pub time: Seq<char>,
    pub release_time: Seq<char>,
    pub sha1: Seq<char>,
    pub compliance_level: u8,
}

/// What a `LatestVersion` holds.
pub struct LatestView {
    pub snapshot: Seq<char>,
    pub release: Seq<char>,
}

impl View for Version {
    type V = VersionView;

    open spec fn view(&self) -> VersionView {
        VersionView {
            id: self.id@,
            version_type: self.version_type,
            url: self.url@,
            time: self.time@,
            release_time: self.release_time@,
            sha1: self.sha1@,
            compliance_level: self.compliance_level,
        }
    }
}

impl View for LatestVersion {
    type V = LatestView;

    open spec fn view(&self) -> LatestView {
        LatestView { snapshot: self.snapshot@, release: self.release@ }
    }
}

impl PartialEq for Version {
    fn eq(&self, other: &Version) -> (r: bool)
        ensures
            r == (self@ == other@),
    {
        self.id == other.id && self.version_type == other.version_type && self.url == other.url
            && self.time == other.time && self.release_time == other.release_time && self.sha1
            == other.sha1 && self.compliance_level == other.compliance_level
    }
}

impl vstd::std_specs::cmp::PartialEqSpecImpl for Version {
    open spec fn obeys_eq_spec() -> bool {
        true
    }

    open spec fn eq_spec(&self, other: &Version) -> bool {
        self@ == other@
    }
}

/// The channel that a `type` tag names, if it names one.
pub open spec fn version_type_of(tag: Seq<char>) -> Option<VersionType> {
    if tag == "snapshot"@ {
        Some(VersionType::Snapshot)
    } else if tag == "release"@ {
        Some(VersionType::Release)
    } else if tag == "old_beta"@ {
        Some(VersionType::OldBeta)
    } else if tag == "old_alpha"@ {
        Some(VersionType::OldAlpha)
    } else {
        None
    }
}

/// The catalog entry that one element of `versions` gives; none when its
/// `type` is not a known channel.
pub open spec fn version_of(item: Json) -> Option<VersionView> {
    let v = Some(item);
    match version_type_of(text(field(v, "type"@))) {
        Some(t) => Some(
            VersionView {
                id: text(field(v, "id"@)),
                version_type: t,
                url: text(field(v, "url"@)),
                time: text(field(v, "time"@)),
                release_time: text(field(v, "releaseTime"@)),
                sha1: text(field(v, "sha1"@)),
                compliance_level: unsigned(field(v, "complianceLevel"@)) as u8,
            },
        ),
        None => None,
    }
}

/// The recognised elements of `items`, in their order.
pub open spec fn catalog_of(items: Seq<Json>) -> Seq<VersionView>
    decreases items.len(),
{
    if items.len() == 0 {
        Seq::empty()
    } else {
        let before = catalog_of(items.drop_last());
        match version_of(items.last()) {
            Some(v) => before.push(v),
            None => before,
        }
    }
}

/// The catalog that a manifest describes.
pub open spec fn manifest_versions(manifest: Json) -> Seq<VersionView> {
    match elements(field(Some(manifest), "versions"@)) {
        Some(items) => catalog_of(items),
        None => Seq::empty(),
    }
}

/// The latest pointers that a manifest describes.
pub open spec fn manifest_latest(manifest: Json) -> LatestView {
    let latest = field(Some(manifest), "latest"@);
    LatestView { snapshot: text(field(latest, "snapshot"@)), release: text(field(latest, "release"@)) }
}

/// The first entry from index `i` on whose id is `id`.
pub open spec fn find_version(catalog: Seq<VersionView>, id: Seq<char>, i: int) -> Option<VersionView>
    decreases catalog.len() - i,
{
    if i < 0 || i >= catalog.len() {
        None
    } else if catalog[i].id == id {
        Some(catalog[i])
    } else {
        find_version(catalog, id, i + 1)
    }
}

/// Views of a sequence of versions.
pub open spec fn versions_view(s: Seq<Version>) -> Seq<VersionView> {
    s.map_values(|v: Version| v@)
}

/// Whether an element of `versions` names a known channel.
pub open spec fn recognised(item: Json) -> bool {
    version_of(item) is Some
}

/// The catalog keeps exactly the elements of a known channel, in their
/// order, and drops the others.
pub proof fn catalog_keeps_recognised(items: Seq<Json>)
    ensures
        catalog_of(items) == items.filter(|j: Json| recognised(j)).map_values(
            |j: Json| version_of(j)->Some_0,
        ),
    decreases items.len(),
{
    if items.len() > 0 {
        let f = |j: Json| recognised(j);
        let g = |j: Json| version_of(j)->Some_0;
        catalog_keeps_recognised(items.drop_last());
        let kept = items.drop_last().filter(f);
        reveal(Seq::filter);
        if recognised(items.last()) {
            assert(kept.push(items.last()).map_values(g) =~= kept.map_values(g).push(
                g(items.last()),
            ));
        }
    }
}

/// Lookup from index `i` finds the entry at `k` when it is the first
/// entry from `i` on with that id.
proof fn find_version_reaches(catalog: Seq<VersionView>, id: Seq<char>, i: int, k: int)
    requires
        0 <= i <= k < catalog.len(),
        catalog[k].id == id,
        forall|j: int| i <= j < k ==> catalog[j].id != id,
    ensures
        find_version(catalog, id, i) == Some(catalog[k]),
    decreases k - i,
{
    if i < k {
        find_version_reaches(catalog, id, i + 1, k);
    }
}

/// Lookup from index `i` finds nothing when no entry from `i` on has the id.
proof fn find_version_misses(catalog: Seq<VersionView>, id: Seq<char>, i: int)
    requires
        0 <= i,
        forall|j: int| i <= j < catalog.len() ==> catalog[j].id != id,
    ensures
        find_version(catalog, id, i) is None,
    decreases catalog.len() - i,
{
    if i < catalog.len() {
        find_version_misses(catalog, id, i + 1);
    }
}

/// Lookup returns the first entry with the id, in catalog order; so the
/// only one, where the id is unique.
pub proof fn lookup_first_match(catalog: Seq<VersionView>, id: Seq<char>, k: int)
    requires
        0 <= k < catalog.len(),
        catalog[k].id == id,
        forall|j: int| 0 <= j < k ==> catalog[j].id != id,
    ensures
        find_version(catalog, id, 0) == Some(catalog[k]),
{
    find_version_reaches(catalog, id, 0, k);
}

/// Lookup of an id that no entry has, in an empty catalog too, finds nothing.
pub proof fn lookup_absent(catalog: Seq<VersionView>, id: Seq<char>)
    requires
        forall|j: int| 0 <= j < catalog.len() ==> catalog[j].id != id,
    ensures
        find_version(catalog, id, 0) is None,
{
    find_version_misses(catalog, id, 0);
}

/// Reads the channel from a `type` tag.
pub fn parse_version_type(tag: &str) -> (r: Option<VersionType>)
    ensures
        r == version_type_of(tag@),
{
    proof {
        reveal_strlit("snapshot");
        reveal_strlit("release");
        reveal_strlit("old_beta");
        reveal_strlit("old_alpha");
    }
    if same_text(tag, "snapshot") {
        Some(VersionType::Snapshot)
    } else if same_text(tag, "release") {
        Some(VersionType::Release)
    } else if same_text(tag, "old_beta") {
        Some(VersionType::OldBeta)
    } else if same_text(tag, "old_alpha") {
        Some(VersionType::OldAlpha)
    } else {
        None
    }
}

/// Reads one element of `versions`.
pub fn parse_version(item: &Json) -> (r: Option<Version>)
    ensures
        match r {
            Some(v) => version_of(*item) == Some(v@),
            None => version_of(*item) is None,
        },
{
    let v = Some(item);
    let tag = text_of(member(v, "type"));
    let version_type = match parse_version_type(tag.as_str()) {
        Some(t) => t,
        None => return None,
    };
    Some(
        Version {
            id: text_of(member(v, "id")),
            version_type,
            url: text_of(member(v, "url")),
            time: text_of(member(v, "time")),
            release_time: text_of(member(v, "releaseTime")),
            sha1: text_of(member(v, "sha1")),
            compliance_level: unsigned_of(member(v, "complianceLevel")) as u8,
        },
    )
}

/// Holds the catalog of one manifest once it has been read.
pub struct VersionManager {
    pub versions: Option<Vec<Version>>,
    pub latest: Option<LatestVersion>,
}

impl VersionManager {
    /// The catalog, as views.
    pub open spec fn catalog(&self) -> Option<Seq<VersionView>> {
        match &self.versions {
            Some(v) => Some(versions_view(v@)),
            None => None,
        }
    }

    /// The latest pointers, as views.
    pub open spec fn latest_view(&self) -> Option<LatestView> {
        match &self.latest {
            Some(l) => Some(l@),
            None => None,
        }
    }

    /// Reads a fetched manifest; on a failed fetch nothing changes.
    pub fn populate(&mut self, fetched: &Result<Json, FetchError>) -> (ok: bool)
        ensures
            ok == fetched.is_ok(),
            ok ==> final(self).catalog() == Some(manifest_versions(fetched->Ok_0)),
            ok ==> final(self).latest_view() == Some(manifest_latest(fetched->Ok_0)),
            !ok ==> *final(self) == *old(self),
    {
        match fetched {
            Ok(manifest) => {
                self.parse_latest(manifest);
                self.parse_versions(manifest);
                true
            },
            Err(_) => false,
        }
    }

    /// Reads the `latest` pointers; a missing one reads as empty.
    pub fn parse_latest(&mut self, manifest: &Json)
        ensures
            final(self).latest_view() == Some(manifest_latest(*manifest)),
            final(self).versions == old(self).versions,
    {
        let latest = member(Some(manifest), "latest");
        self.latest = Some(
            LatestVersion {
                snapshot: text_of(member(latest, "snapshot")),
                release: text_of(member(latest, "release")),
            },
        );
    }

    /// Reads the `versions` array into the catalog, keeping the order of
    /// the manifest and leaving out entries of an unknown channel.
    pub fn parse_versions(&mut self, manifest: &Json)
        ensures
            final(self).catalog() == Some(manifest_versions(*manifest)),
            final(self).latest == old(self).latest,
    {
        let mut out: Vec<Version> = Vec::new();
        match elements_of(member(Some(manifest), "versions")) {
            Some(items) => {
                let mut i: usize = 0;
                while i < items.len()
                    invariant
                        i <= items.len(),
                        versions_view(out@) == catalog_of(items@.take(i as int)),
                    decreases items.len() - i,
                {
                    let parsed = parse_version(&items[i]);
                    proof {
                        assert(items@.take(i + 1).drop_last() =~= items@.take(i as int));
                        assert(items@.take(i + 1).last() == items@[i as int]);
                    }
                    match parsed {
                        Some(v) => {
                            out.push(v);
                            assert(versions_view(out@) =~= catalog_of(items@.take(i + 1)));
                        },
                        None => {},
                    }
                    i = i + 1;
                }
                assert(items@.take(items.len() as int) =~= items@);
            },
            None => {},
        }
        self.versions = Some(out);
    }

    /// The first catalog entry whose id is `id`.
    pub fn get_version(&self, id: &str) -> (r: Option<&Version>)
        ensures
            match r {
                Some(v) => self.catalog() matches Some(c) && find_version(c, id@, 0) == Some(v@),
                None => self.catalog() matches Some(c) ==> find_version(c, id@, 0) is None,
            },
    {
        match &self.versions {
            Some(versions) => {
                let mut i: usize = 0;
                while i < versions.len()
                    invariant
                        i <= versions.len(),
                        self.versions == Some(*versions),
                        find_version(versions_view(versions@), id@, 0) == find_version(
                            versions_view(versions@),
                            id@,
                            i as int,
                        ),
                    decreases versions.len() - i,
                {
                    let v = &versions[i];
                    if same_text(v.id.as_str(), id) {
                        return Some(v);
                    }
                    i = i + 1;
                }
                None
            },
            None => None,
        }
    }
}

} // verus!
