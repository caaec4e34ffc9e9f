//! Flattens a release and its asset index into resource descriptors.
use vstd::prelude::*;
use crate::Error;
use crate::assets::{AssetIndex, asset_relative_path, asset_url, get_asset_url, legacy_flag};
use crate::descriptor::{
    DescriptorView, ResourceDescriptor, ResourceKind, describe, descriptor_views, push_descriptor,
};
use crate::hierarchy::Hierarchy;
use crate::metadata::{
    Library, VersionInfo, library_included, native_artifact, native_classifier, native_key,
};
use crate::rules::PlatformContext;
use crate::text::{join_path, joined};

verus! {

/// The descriptor of asset `entry`.
pub open spec fn asset_descriptor(
    entry: (String, crate::assets::AssetMetadata),
    legacy: bool,
    assets_dir: Seq<char>,
) -> DescriptorView {
    DescriptorView {
        url: asset_url(entry.1.hash@),
        sha1: entry.1.hash@,
        size: entry.1.size,
        local_path: joined(assets_dir, asset_relative_path(entry.0@, entry.1.hash@, legacy)),
        kind: ResourceKind::AssetObject,
    }
}

pub open spec fn asset_descriptors(
    objects: Seq<(String, crate::assets::AssetMetadata)>,
    legacy: bool,
    assets_dir: Seq<char>,
) -> Seq<DescriptorView> {
    objects.map_values(|e: (String, crate::assets::AssetMetadata)| asset_descriptor(e, legacy, assets_dir))
}

/// The descriptors of one library: none when it is excluded, else its
/// artifact and its native archive for classifier `key`, each if present.
pub open spec fn library_descriptors(
    lib: Library,
    ctx: PlatformContext,
    key: Seq<char>,
    libraries_dir: Seq<char>,
) -> Seq<DescriptorView> {
    if !library_included(lib, ctx) {
        Seq::empty()
    } else {
        (match lib.resources.artifact {
            Some(a) => seq![describe(a.resource, joined(libraries_dir, a.path@), ResourceKind::LibraryArtifact)],
            None => Seq::empty(),
        }) + (match native_artifact(lib.resources, key) {
            Some(n) => seq![describe(n.resource, joined(libraries_dir, n.path@), ResourceKind::NativeArchive)],
            None => Seq::empty(),
        })
    }
}

pub open spec fn libraries_descriptors(
    libs: Seq<Library>,
    ctx: PlatformContext,
    key: Seq<char>,
    libraries_dir: Seq<char>,
) -> Seq<DescriptorView>
    decreases libs.len(),
{
    if libs.len() == 0 {
        Seq::empty()
    } else {
        libraries_descriptors(libs.drop_last(), ctx, key, libraries_dir) + library_descriptors(
            libs.last(),
            ctx,
            key,
            libraries_dir,
        )
    }
}

pub open spec fn asset_index_path(h: Hierarchy, id: Seq<char>) -> Seq<char> {
    joined(joined(h.assets_dir@, "indexes"@), id) + ".json"@
}

pub open spec fn client_path(h: Hierarchy) -> Seq<char> {
    joined(h.version_dir@, "client.jar"@)
}

pub open spec fn log_config_path(h: Hierarchy, id: Seq<char>) -> Seq<char> {
    joined(joined(h.gamedir@, "logs"@), id)
}

/// All descriptors of a release, in order: the asset index file, the assets
/// in index order, the libraries in declaration order, the client binary and,
/// if the release has one, the logging configuration.
pub open spec fn compiled(
    version: VersionInfo,
    index: AssetIndex,
    h: Hierarchy,
    ctx: PlatformContext,
    key: Seq<char>,
) -> Seq<DescriptorView> {
    seq![describe(version.asset_index.resource, asset_index_path(h, version.asset_index.id@), ResourceKind::AssetIndexFile)]
        + asset_descriptors(index.objects@, legacy_flag(index), h.assets_dir@)
        + libraries_descriptors(version.libraries@, ctx, key, h.libraries_dir@)
        + seq![describe(version.downloads.client, client_path(h), ResourceKind::ClientBinary)]
        + match version.logging {
            Some(l) => seq![describe(l.client.config.resource, log_config_path(h, l.client.config.id@), ResourceKind::LogConfig)],
            None => Seq::<DescriptorView>::empty(),
        }
}

/// Where the asset index `id` is stored under `hierarchy`.
pub fn asset_index_location(hierarchy: &Hierarchy, id: &str) -> (r: String)
    ensures
        r@ == asset_index_path(*hierarchy, id@),
{
    let indexes_dir = join_path(&hierarchy.assets_dir, "indexes");
    join_path(&indexes_dir, id).concat(".json")
}

fn push_assets(out: &mut Vec<ResourceDescriptor>, index: &AssetIndex, assets_dir: &String)
    requires
        index.hashes_shardable(),
    ensures
        descriptor_views(final(out)@) == descriptor_views(old(out)@) + asset_descriptors(
            index.objects@,
            legacy_flag(*index),
            assets_dir@,
        ),
{
    let legacy = index.is_legacy();
    let mut i: usize = 0;
    while i < index.objects.len()
        invariant
            index.hashes_shardable(),
            legacy == legacy_flag(*index),
            i <= index.objects@.len(),
            descriptor_views(out@) == descriptor_views(old(out)@) + asset_descriptors(
                index.objects@.subrange(0, i as int),
                legacy,
                assets_dir@,
            ),
        decreases index.objects@.len() - i,
    {
        let entry = &index.objects[i];
        assert(index.objects@[i as int].1.well_formed());
        assert(legacy || entry.1.well_formed());
        let rel = AssetIndex::relative_path(&entry.0, &entry.1, legacy);
        let d = ResourceDescriptor {
            url: get_asset_url(&entry.1),
            sha1: entry.1.hash.clone(),
            size: entry.1.size,
            local_path: join_path(assets_dir, rel.as_str()),
            kind: ResourceKind::AssetObject,
        };
        push_descriptor(out, d);
        assert(asset_descriptors(index.objects@.subrange(0, i + 1), legacy, assets_dir@)
            =~= asset_descriptors(index.objects@.subrange(0, i as int), legacy, assets_dir@).push(
            asset_descriptor(index.objects@[i as int], legacy, assets_dir@),
        ));
        i = i + 1;
    }
    assert(index.objects@.subrange(0, index.objects@.len() as int) =~= index.objects@);
}

fn push_library(
    out: &mut Vec<ResourceDescriptor>,
    lib: &Library,
    ctx: &PlatformContext,
    key: &String,
    libraries_dir: &String,
)
    ensures
        descriptor_views(final(out)@) == descriptor_views(old(out)@) + library_descriptors(
            *lib,
            *ctx,
            key@,
            libraries_dir@,
        ),
{
    if !lib.is_supported_by_rules(ctx) {
        assert(descriptor_views(out@) =~= descriptor_views(old(out)@) + Seq::empty());
        return;
    }
    let ghost mid;
    match &lib.resources.artifact {
        Some(a) => {
            let path = join_path(libraries_dir, a.path.as_str());
            push_descriptor(out, ResourceDescriptor::from_resource(&a.resource, path, ResourceKind::LibraryArtifact));
        },
        None => {},
    }
    proof {
        mid = descriptor_views(out@);
    }
    match lib.resources.get_native_for_os(key) {
        Some(n) => {
            let path = join_path(libraries_dir, n.path.as_str());
            push_descriptor(out, ResourceDescriptor::from_resource(&n.resource, path, ResourceKind::NativeArchive));
        },
        None => {},
    }
    assert(descriptor_views(out@) =~= descriptor_views(old(out)@) + library_descriptors(
        *lib,
        *ctx,
        key@,
        libraries_dir@,
    ));
}

fn push_libraries(
    out: &mut Vec<ResourceDescriptor>,
    libs: &Vec<Library>,
    ctx: &PlatformContext,
    key: &String,
    libraries_dir: &String,
)
    ensures
        descriptor_views(final(out)@) == descriptor_views(old(out)@) + libraries_descriptors(
            libs@,
            *ctx,
            key@,
            libraries_dir@,
        ),
{
    let mut i: usize = 0;
    assert(descriptor_views(out@) =~= descriptor_views(old(out)@) + libraries_descriptors(
        libs@.subrange(0, 0),
        *ctx,
        key@,
        libraries_dir@,
    ));
    while i < libs.len()
        invariant
            i <= libs@.len(),
            descriptor_views(out@) == descriptor_views(old(out)@) + libraries_descriptors(
                libs@.subrange(0, i as int),
                *ctx,
                key@,
                libraries_dir@,
            ),
        decreases libs@.len() - i,
    {
        push_library(out, &libs[i], ctx, key, libraries_dir);
        assert(libs@.subrange(0, i + 1).drop_last() =~= libs@.subrange(0, i as int));
        assert(descriptor_views(out@) =~= descriptor_views(old(out)@) + libraries_descriptors(
            libs@.subrange(0, i + 1),
            *ctx,
            key@,
            libraries_dir@,
        ));
        i = i + 1;
    }
    assert(libs@.subrange(0, libs@.len() as int) =~= libs@);
}

/// Flattens `version` and `index` into the descriptors of every file the
/// release needs under `hierarchy` on the platform of `ctx`.
///
/// Fails with `UnsupportedPlatform` when the platform has no native
/// classifier, and else with `MalformedAssetIndex` when an asset hash is too
/// short to be sharded or two assets share a virtual path.
pub fn compile(
    version: &VersionInfo,
    index: &AssetIndex,
    hierarchy: &Hierarchy,
    ctx: &PlatformContext,
) -> (r: Result<Vec<ResourceDescriptor>, Error>)
    ensures
        native_key(*ctx) is None ==> r == Err::<Vec<ResourceDescriptor>, Error>(
            Error::UnsupportedPlatform,
        ),
        native_key(*ctx) is Some && !index.well_formed() ==> r == Err::<
            Vec<ResourceDescriptor>,
            Error,
        >(Error::MalformedAssetIndex),
        native_key(*ctx) is Some && index.well_formed() ==> r is Ok && descriptor_views(r->Ok_0@)
            == compiled(*version, *index, *hierarchy, *ctx, native_key(*ctx)->0),
{
    let key = match native_classifier(ctx) {
        Some(k) => k,
        None => return Err(Error::UnsupportedPlatform),
    };
    if !index.is_well_formed() {
        return Err(Error::MalformedAssetIndex);
    }
    let mut out: Vec<ResourceDescriptor> = Vec::new();
    let index_path = asset_index_location(hierarchy, version.asset_index.id.as_str());
    push_descriptor(
        &mut out,
        ResourceDescriptor::from_resource(&version.asset_index.resource, index_path, ResourceKind::AssetIndexFile),
    );
    push_assets(&mut out, index, &hierarchy.assets_dir);
    push_libraries(&mut out, &version.libraries, ctx, &key, &hierarchy.libraries_dir);
    let client = join_path(&hierarchy.version_dir, "client.jar");
    push_descriptor(
        &mut out,
        ResourceDescriptor::from_resource(&version.downloads.client, client, ResourceKind::ClientBinary),
    );
    let ghost before_log = descriptor_views(out@);
    match &version.logging {
        Some(logging) => {
            let logs_dir = join_path(&hierarchy.gamedir, "logs");
            let path = join_path(&logs_dir, logging.client.config.id.as_str());
            push_descriptor(
                &mut out,
                ResourceDescriptor::from_resource(&logging.client.config.resource, path, ResourceKind::LogConfig),
            );
        },
        None => {},
    }
    assert(descriptor_views(out@) =~= compiled(*version, *index, *hierarchy, *ctx, key@));
    Ok(out)
}

} // verus!
