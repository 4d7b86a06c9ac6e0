//! The asset-index reference of a version descriptor.
use vstd::prelude::*;

use crate::json::{field, member, text, text_of, unsigned, unsigned_of, Json};
use crate::FetchError;

verus! {

/// Where a version's asset index lives, and its integrity data.
pub struct AssetIndex {
    pub id: String,
    pub sha1: String,
    pub size: u64,
    pub total_size: u64,
    pub url: String,
}

/// What an `AssetIndex` holds.
pub struct AssetIndexView {
    pub id: Seq<char>,
    pub sha1: Seq<char>,
    pub size: u64,
    pub total_size: u64,
    pub url: Seq<char>,
}

impl View for AssetIndex {
    type V = AssetIndexView;

    open spec fn view(&self) -> AssetIndexView {
        AssetIndexView {
            id: self.id@,
            sha1: self.sha1@,
            size: self.size,
            total_size: self.total_size,
            url: self.url@,
        }
    }
}

/// The asset-index reference that a version descriptor gives; each field
/// that is missing or of another type reads as empty or zero.
pub open spec fn descriptor_asset_index(descriptor: Json) -> AssetIndexView {
    let a = field(Some(descriptor), "assetIndex"@);
    AssetIndexView {
        id: text(field(a, "id"@)),
        sha1: text(field(a, "sha1"@)),
        size: unsigned(field(a, "size"@)),
        total_size: unsigned(field(a, "totalSize"@)),
        url: text(field(a, "url"@)),
    }
}

/// A descriptor without an `assetIndex` member gives a reference whose
/// fields are all empty or zero.
pub proof fn missing_asset_index_reads_as_defaults(descriptor: Json)
    requires
        field(Some(descriptor), "assetIndex"@) is None,
    ensures
        descriptor_asset_index(descriptor) == (AssetIndexView {
            id: Seq::empty(),
            sha1: Seq::empty(),
            size: 0,
            total_size: 0,
            url: Seq::empty(),
        }),
{
}

/// Holds the asset-index reference of one version once it has been read.
pub struct AssetManager {
    pub asset_index: Option<AssetIndex>,
}

impl AssetManager {
    /// The reference held, as a view.
    pub open spec fn index_view(&self) -> Option<AssetIndexView> {
        match &self.asset_index {
            Some(a) => Some(a@),
            None => None,
        }
    }

    /// Reads a fetched version descriptor; on a failed fetch nothing changes.
    pub fn populate(&mut self, fetched: &Result<Json, FetchError>) -> (ok: bool)
        ensures
            ok == fetched.is_ok(),
            ok ==> final(self).index_view() == Some(descriptor_asset_index(fetched->Ok_0)),
            !ok ==> *final(self) == *old(self),
    {
        match fetched {
            Ok(descriptor) => {
                self.parse_asset_index(descriptor);
                true
            },
            Err(_) => false,
        }
    }

    /// Reads the `assetIndex` object of a version descriptor.
    pub fn parse_asset_index(&mut self, version_data: &Json)
        ensures
            final(self).index_view() == Some(descriptor_asset_index(*version_data)),
    {
        let a = member(Some(version_data), "assetIndex");
        self.asset_index = Some(
            AssetIndex {
                id: text_of(member(a, "id")),
                sha1: text_of(member(a, "sha1")),
                size: unsigned_of(member(a, "size")),
                total_size: unsigned_of(member(a, "totalSize")),
                url: text_of(member(a, "url")),
            },
        );
    }

    /// The reference held, if one has been read.
    pub fn get_asset_index(&self) -> (r: &Option<AssetIndex>)
        ensures
            r == &self.asset_index,
    {
        &self.asset_index
    }
}

} // verus!
