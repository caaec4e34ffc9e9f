//! Resource descriptors: one remote file, its integrity data and its local place.
use vstd::prelude::*;
use crate::metadata::Resource;

verus! {

/// What a descriptor's file is for.
#[derive(Clone, Copy, Debug, PartialEq, Eq, Structural)]
pub enum ResourceKind {
    AssetObject,
    AssetIndexFile,
    LibraryArtifact,
    NativeArchive,
    ClientBinary,
    LogConfig,
}

/// A remote file, its expected digest and size, and where it belongs on disk.
#[derive(Debug)]
pub struct ResourceDescriptor {
    pub url: String,
    pub sha1: String,
    pub size: u64,
    pub local_path: String,
    pub kind: ResourceKind,
}

/// The value of a descriptor, with texts as character sequences.
pub struct DescriptorView {
    pub url: Seq<char>,
    pub sha1: Seq<char>,
    pub size: u64,
    pub local_path: Seq<char>,
    pub kind: ResourceKind,
}

impl View for ResourceDescriptor {
    type V = DescriptorView;

    open spec fn view(&self) -> DescriptorView {
        DescriptorView {
            url: self.url@,
            sha1: self.sha1@,
            size: self.size,
            local_path: self.local_path@,
            kind: self.kind,
        }
    }
}

pub open spec fn descriptor_views(s: Seq<ResourceDescriptor>) -> Seq<DescriptorView> {
    s.map_values(|d: ResourceDescriptor| d@)
}

/// The descriptor of remote file `res` stored at `path`.
pub open spec fn describe(res: Resource, path: Seq<char>, kind: ResourceKind) -> DescriptorView {
    DescriptorView { url: res.url@, sha1: res.sha1@, size: res.size, local_path: path, kind }
}

impl ResourceDescriptor {
    /// The descriptor of `res` stored at `local_path`.
    pub fn from_resource(res: &Resource, local_path: String, kind: ResourceKind) -> (r: ResourceDescriptor)
        ensures
            r@ == describe(*res, local_path@, kind),
    {
        ResourceDescriptor {
            url: res.url.clone(),
            sha1: res.sha1.clone(),
            size: res.size,
            local_path,
            kind,
        }
    }
}

/// Appends `d` to `out`.
pub fn push_descriptor(out: &mut Vec<ResourceDescriptor>, d: ResourceDescriptor)
    ensures
        descriptor_views(final(out)@) == descriptor_views(old(out)@).push(d@),
{
    let ghost v = d@;
    out.push(d);
    assert(descriptor_views(out@) =~= descriptor_views(old(out)@).push(v));
}

} // verus!
