//! The asset index and where each asset lives, locally and remotely.
use vstd::prelude::*;
use crate::text::{join_path, joined};

verus! {

/// The registry that serves asset objects by hash.
pub const RESOURCE_REGISTRY_URL: &'static str = "http://resources.download.minecraft.net";

/// The digest and size of one asset object.
#[derive(Debug)]
pub struct AssetMetadata {
    pub hash: String,
    pub size: u64,
}

/// Virtual asset paths and their objects, with the layout flag.
#[derive(Debug)]
pub struct AssetIndex {
    /// When `true`, assets are stored under their virtual path (legacy layout).
    pub map_to_resources: Option<bool>,
    pub objects: Vec<(String, AssetMetadata)>,
}

/// The placeholder digest of an asset whose index gives none.
pub fn empty_hash() -> (r: String)
    ensures
        r@ == "00null"@,
{
    String::from_str("00null")
}

/// The hash-sharded id of an object: its first two characters, a separator, the full hash.
pub open spec fn sharded(hash: Seq<char>) -> Seq<char> {
    joined(hash.subrange(0, 2), hash)
}

/// The path of an asset below the assets directory.
pub open spec fn asset_relative_path(name: Seq<char>, hash: Seq<char>, legacy: bool) -> Seq<char> {
    if legacy {
        "virtual/legacy/"@ + name
    } else {
        "objects/"@ + sharded(hash)
    }
}

/// What `iter_paths` lists for an asset: its virtual path under the legacy
/// layout, else its sharded id. The caller places it below its layout directory.
pub open spec fn index_path(name: Seq<char>, hash: Seq<char>, legacy: bool) -> Seq<char> {
    if legacy {
        name
    } else {
        sharded(hash)
    }
}

/// Where the registry serves an object.
pub open spec fn asset_url(hash: Seq<char>) -> Seq<char> {
    joined(RESOURCE_REGISTRY_URL@, sharded(hash))
}

pub open spec fn legacy_flag(index: AssetIndex) -> bool {
    match index.map_to_resources {
        Some(b) => b,
        None => false,
    }
}

impl AssetMetadata {
    pub open spec fn well_formed(self) -> bool {
        self.hash@.len() >= 2
    }

    /// `<first two hash characters>/<hash>`.
    pub fn hashed_id(&self) -> (r: String)
        requires
            self.well_formed(),
        ensures
            r@ == sharded(self.hash@),
    {
        let prefix = self.hash.as_str().substring_char(0, 2);
        let r = join_path(&String::from_str(prefix), self.hash.as_str());
        r
    }
}

/// The URL the registry serves `meta`'s object at.
pub fn get_asset_url(meta: &AssetMetadata) -> (r: String)
    requires
        meta.well_formed(),
    ensures
        r@ == asset_url(meta.hash@),
{
    let id = meta.hashed_id();
    join_path(&String::from_str(RESOURCE_REGISTRY_URL), id.as_str())
}

impl AssetIndex {
    /// Every object's hash has at least the two characters of its shard.
    pub open spec fn hashes_shardable(self) -> bool {
        forall|i: int| 0 <= i < self.objects@.len() ==> (#[trigger] self.objects@[i]).1.well_formed()
    }

    /// No two objects share a virtual path, as in the index's JSON object.
    pub open spec fn names_unique(self) -> bool {
        forall|a: int, b: int|
            0 <= a < b < self.objects@.len() ==> (#[trigger] self.objects@[a]).0@ != (
            #[trigger] self.objects@[b]).0@
    }

    pub open spec fn well_formed(self) -> bool {
        self.hashes_shardable() && self.names_unique()
    }

    /// Whether assets use the legacy layout; absent means no.
    pub fn is_legacy(&self) -> (r: bool)
        ensures
            r == legacy_flag(*self),
    {
        match self.map_to_resources {
            Some(b) => b,
            None => false,
        }
    }

    /// Whether every hash is long enough to be sharded.
    pub fn has_valid_hashes(&self) -> (r: bool)
        ensures
            r == self.hashes_shardable(),
    {
        let mut i: usize = 0;
        while i < self.objects.len()
            invariant
                i <= self.objects@.len(),
                forall|j: int| 0 <= j < i ==> (#[trigger] self.objects@[j]).1.well_formed(),
            decreases self.objects@.len() - i,
        {
            if self.objects[i].1.hash.as_str().unicode_len() < 2 {
                return false;
            }
            i = i + 1;
        }
        true
    }

    /// Whether no two objects share a virtual path.
    pub fn has_unique_names(&self) -> (r: bool)
        ensures
            r == self.names_unique(),
    {
        let n = self.objects.len();
        let mut i: usize = 0;
        while i < n
            invariant
                n == self.objects@.len(),
                i <= n,
                forall|a: int, b: int|
                    0 <= a < b < i ==> (#[trigger] self.objects@[a]).0@ != (
                    #[trigger] self.objects@[b]).0@,
            decreases n - i,
        {
            let mut j: usize = 0;
            while j < i
                invariant
                    n == self.objects@.len(),
                    j <= i < n,
                    forall|a: int| 0 <= a < j ==> (#[trigger] self.objects@[a]).0@ != self.objects@[i as int].0@,
                decreases i - j,
            {
                if self.objects[j].0.eq(&self.objects[i].0) {
                    assert(!self.names_unique()) by {
                        assert(self.objects@[j as int].0@ == self.objects@[i as int].0@);
                    }
                    return false;
                }
                j = j + 1;
            }
            i = i + 1;
        }
        true
    }

    /// Whether every hash can be sharded and no virtual path repeats.
    pub fn is_well_formed(&self) -> (r: bool)
        ensures
            r == self.well_formed(),
    {
        self.has_valid_hashes() && self.has_unique_names()
    }

    /// The path of one object below the assets directory.
    pub fn relative_path(name: &String, meta: &AssetMetadata, legacy: bool) -> (r: String)
        requires
            legacy || meta.well_formed(),
        ensures
            r@ == asset_relative_path(name@, meta.hash@, legacy),
    {
        if legacy {
            String::from_str("virtual/legacy/").concat(name.as_str())
        } else {
            let id = meta.hashed_id();
            String::from_str("objects/").concat(id.as_str())
        }
    }

    /// For each object in index order, its virtual path under the legacy
    /// layout, else its sharded id `<first two hash characters>/<hash>`.
    pub fn iter_paths(&self) -> (r: Vec<String>)
        requires
            legacy_flag(*self) || self.hashes_shardable(),
        ensures
            r@.len() == self.objects@.len(),
            forall|i: int|
                0 <= i < r@.len() ==> (#[trigger] r@[i])@ == index_path(
                    self.objects@[i].0@,
                    self.objects@[i].1.hash@,
                    legacy_flag(*self),
                ),
    {
        let legacy = self.is_legacy();
        let mut r: Vec<String> = Vec::new();
        let mut i: usize = 0;
        while i < self.objects.len()
            invariant
                legacy || self.hashes_shardable(),
                legacy == legacy_flag(*self),
                i <= self.objects@.len(),
                r@.len() == i,
                forall|j: int|
                    0 <= j < i ==> (#[trigger] r@[j])@ == index_path(
                        self.objects@[j].0@,
                        self.objects@[j].1.hash@,
                        legacy,
                    ),
            decreases self.objects@.len() - i,
        {
            let entry = &self.objects[i];
            if legacy {
                r.push(entry.0.clone());
            } else {
                assert(self.objects@[i as int].1.well_formed());
                r.push(entry.1.hashed_id());
            }
            i = i + 1;
        }
        r
    }
}

} // verus!
