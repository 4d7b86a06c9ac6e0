//! The objects that an asset index lists.
use vstd::prelude::*;

use crate::json::{entries, entries_of, field, member, signed, signed_of, text, text_of, Json};
use crate::FetchError;

verus! {

/// One content-addressed object of the asset index.
pub struct Object {
    pub name: String,
    pub hash: String,
    pub size: i64,
}

/// What an `Object` holds.
pub struct ObjectView {
    pub name: Seq<char>,
    pub hash: Seq<char>,
    pub size: i64,
}

impl View for Object {
    type V = ObjectView;

    open spec fn view(&self) -> ObjectView {
        ObjectView { name: self.name@, hash: self.hash@, size: self.size }
    }
}

/// The object that one entry of `objects` describes: its key is the name.
pub open spec fn object_of(entry: (String, Json)) -> ObjectView {
    let v = Some(entry.1);
    ObjectView { name: entry.0@, hash: text(field(v, "hash"@)), size: signed(field(v, "size"@)) }
}

/// The objects that an asset index lists, in the order of its entries; none
/// when `objects` is missing or not an object.
pub open spec fn index_objects(index: Json) -> Seq<ObjectView> {
    match entries(field(Some(index), "objects"@)) {
        Some(e) => objects_from(e),
        None => Seq::empty(),
    }
}

/// The objects that a sequence of `objects` entries describes.
pub open spec fn objects_from(e: Seq<(String, Json)>) -> Seq<ObjectView> {
    e.map_values(|x: (String, Json)| object_of(x))
}

/// Views of a sequence of objects.
pub open spec fn objects_view(s: Seq<Object>) -> Seq<ObjectView> {
    s.map_values(|o: Object| o@)
}

/// Reads one entry of `objects`.
pub fn parse_object(entry: &(String, Json)) -> (r: Object)
    ensures
        r@ == object_of(*entry),
{
    let v = Some(&entry.1);
    Object { name: entry.0.clone(), hash: text_of(member(v, "hash")), size: signed_of(member(v, "size")) }
}

/// Holds the objects of one asset index once it has been read, and the
/// names of those that a downloader reports it could not retrieve.
pub struct DownloadManager {
    pub objects: Option<Vec<Object>>,
    pub failed_downloads: Option<Vec<String>>,
}

impl DownloadManager {
    /// The objects held, as views.
    pub open spec fn objects_list(&self) -> Option<Seq<ObjectView>> {
        match &self.objects {
            Some(o) => Some(objects_view(o@)),
            None => None,
        }
    }

    /// The failure reports held, as character sequences.
    pub open spec fn failures(&self) -> Seq<Seq<char>> {
        match &self.failed_downloads {
            Some(f) => f@.map_values(|s: String| s@),
            None => Seq::empty(),
        }
    }

    /// Reads a fetched asset index; on a failed fetch nothing changes.
    pub fn populate(&mut self, fetched: &Result<Json, FetchError>) -> (ok: bool)
        ensures
            ok == fetched.is_ok(),
            ok ==> final(self).objects_list() == Some(index_objects(fetched->Ok_0)),
            ok ==> final(self).failed_downloads == old(self).failed_downloads,
            !ok ==> *final(self) == *old(self),
    {
        match fetched {
            Ok(index) => {
                self.parse_objects(index);
                true
            },
            Err(_) => false,
        }
    }

    /// Reads the `objects` map of an asset index into a flat list.
    pub fn parse_objects(&mut self, asset_index_data: &Json)
        ensures
            final(self).objects_list() == Some(index_objects(*asset_index_data)),
            final(self).failed_downloads == old(self).failed_downloads,
    {
        let mut objects: Vec<Object> = Vec::new();
        match entries_of(member(Some(asset_index_data), "objects")) {
            Some(e) => {
                let mut i: usize = 0;
                while i < e.len()
                    invariant
                        i <= e.len(),
                        objects_view(objects@) == objects_from(e@.take(i as int)),
                    decreases e.len() - i,
                {
                    let o = parse_object(&e[i]);
                    let ghost before = objects@;
                    objects.push(o);
                    proof {
                        assert(objects@ == before.push(o));
                        assert(objects_view(objects@) =~= objects_view(before).push(o@));
                        assert(objects_from(e@.take(i + 1)) =~= objects_from(e@.take(i as int)).push(
                            object_of(e@[i as int]),
                        ));
                    }
                    i = i + 1;
                }
                assert(e@.take(e.len() as int) =~= e@);
            },
            None => {},
        }
        self.objects = Some(objects);
    }

    /// Records that the object `name` could not be retrieved.
    pub fn record_failure(&mut self, name: String)
        ensures
            final(self).failures() == old(self).failures().push(name@),
            final(self).objects == old(self).objects,
            final(self).failed_downloads is Some,
    {
        let mut list = match self.failed_downloads.take() {
            Some(l) => l,
            None => Vec::new(),
        };
        let ghost before = list@;
        list.push(name);
        assert(list@.map_values(|s: String| s@) =~= before.map_values(|s: String| s@).push(name@));
        self.failed_downloads = Some(list);
    }

    /// The objects held, if an index has been read.
    pub fn get_objects(&self) -> (r: &Option<Vec<Object>>)
        ensures
            r == &self.objects,
    {
        &self.objects
    }
}

} // verus!
