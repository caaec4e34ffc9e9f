//! The list of published releases.
use vstd::prelude::*;
use crate::metadata::ReleaseType;
use crate::text::{eq_ignore_ascii_case, same_ignoring_ascii_case};

verus! {

/// A published release and where its description lives. Times are seconds
/// since the Unix epoch.
#[derive(Debug)]
pub struct Version {
    pub id: String,
    pub release_type: ReleaseType,
    pub url: String,
    pub time: i64,
    pub release_time: i64,
}

/// The ids of the newest release and snapshot.
#[derive(Debug)]
pub struct Latest {
    pub release: String,
    pub snapshot: String,
}

#[derive(Debug)]
pub struct VersionsManifest {
    pub latest: Latest,
    pub versions: Vec<Version>,
}

/// `r` is the first version whose id equals `id` up to ASCII case, or `None` if there is none.
pub open spec fn first_version_matching(versions: Seq<Version>, id: Seq<char>, r: Option<Version>) -> bool {
    match r {
        Some(v) => exists|i: int|
            0 <= i < versions.len() && versions[i] == v && same_ignoring_ascii_case(versions[i].id@, id)
                && forall|j: int| 0 <= j < i ==> !same_ignoring_ascii_case(#[trigger] versions[j].id@, id),
        None => forall|j: int| 0 <= j < versions.len() ==> !same_ignoring_ascii_case(#[trigger] versions[j].id@, id),
    }
}

pub open spec fn deref_version(r: Option<&Version>) -> Option<Version> {
    match r {
        Some(v) => Some(*v),
        None => None,
    }
}

impl VersionsManifest {
    /// The first version whose id equals `id`, ignoring ASCII case.
    pub fn get_version(&self, id: &str) -> (r: Option<&Version>)
        ensures
            first_version_matching(self.versions@, id@, deref_version(r)),
    {
        let mut i: usize = 0;
        while i < self.versions.len()
            invariant
                i <= self.versions@.len(),
                forall|j: int| 0 <= j < i ==> !same_ignoring_ascii_case(#[trigger] self.versions@[j].id@, id@),
            decreases self.versions@.len() - i,
        {
            if eq_ignore_ascii_case(self.versions[i].id.as_str(), id) {
                return Some(&self.versions[i]);
            }
            i = i + 1;
        }
        None
    }

    /// The version named as the latest release.
    pub fn latest_release(&self) -> (r: Option<&Version>)
        ensures
            first_version_matching(self.versions@, self.latest.release@, deref_version(r)),
    {
        self.get_version(self.latest.release.as_str())
    }

    /// The version named as the latest snapshot.
    pub fn latest_snapshot(&self) -> (r: Option<&Version>)
        ensures
            first_version_matching(self.versions@, self.latest.snapshot@, deref_version(r)),
    {
        self.get_version(self.latest.snapshot.as_str())
    }
}

} // verus!
