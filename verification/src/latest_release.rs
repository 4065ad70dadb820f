//! The latest mining-engine release as its update endpoint reports it.
//!
//! Fetching and decoding the release document is network work and stays with
//! the runtime; the runtime hands the decoded release over as plain values,
//! and asset lookup is decided here.

use vstd::prelude::*;

verus! {

/// One downloadable asset of a release.
pub struct Asset {
    id: String,
    pub(crate) name: String,
    pub url: String,
}

impl Asset {
    /// The asset's identity key.
    pub closed spec fn id_view(self) -> Seq<char> {
        self.id@
    }

    /// The asset's file name.
    pub closed spec fn name_view(self) -> Seq<char> {
        self.name@
    }

    /// The asset's download address.
    pub closed spec fn url_view(self) -> Seq<char> {
        self.url@
    }

    pub fn new(id: String, name: String, url: String) -> (asset: Self)
        ensures
            asset.id_view() == id@,
            asset.name_view() == name@,
            asset.url_view() == url@,
    {
        Asset { id, name, url }
    }

    pub fn name(&self) -> (name: &String)
        ensures
            name@ == self.name_view(),
    {
        &self.name
    }
}

/// One release: its version string and its assets.
pub struct XmrigRelease {
    pub(crate) version: String,
    assets: Vec<Asset>,
}

impl XmrigRelease {
    /// The release's version string.
    pub closed spec fn version_view(self) -> Seq<char> {
        self.version@
    }

    /// The release's assets, in document order.
    pub closed spec fn assets_view(self) -> Seq<Asset> {
        self.assets@
    }

    pub fn new(version: String, assets: Vec<Asset>) -> (release: Self)
        ensures
            release.version_view() == version@,
            release.assets_view() == assets@,
    {
        XmrigRelease { version, assets }
    }

    pub fn version(&self) -> (version: &String)
        ensures
            version@ == self.version_view(),
    {
        &self.version
    }

    /// The first asset carrying the given identity key, if any is present.
    pub fn get_asset(&self, id: &str) -> (r: Option<&Asset>)
        ensures
            match r {
                Some(asset) => exists|i: int|
                    {
                        &&& 0 <= i < self.assets_view().len()
                        &&& #[trigger] self.assets_view()[i] == *asset
                        &&& asset.id_view() == id@
                        &&& forall|j: int|
                            0 <= j < i ==> self.assets_view()[j].id_view() != id@
                    },
                None => forall|j: int|
                    0 <= j < self.assets_view().len() ==> self.assets_view()[j].id_view() != id@,
            },
    {
        let id_key: String = id.to_owned();
        let mut i: usize = 0;
        while i < self.assets.len()
            invariant
                0 <= i <= self.assets@.len(),
                id_key@ == id@,
                forall|j: int| 0 <= j < i ==> self.assets@[j].id_view() != id@,
            decreases self.assets@.len() - i,
        {
            let asset = &self.assets[i];
            if asset.id == id_key {
                proof {
                    assert(self.assets_view()[i as int] == *asset);
                }
                return Some(asset);
            }
            i = i + 1;
        }
        None
    }
}

} // verus!
