//! The local directory layout of one installed release.
use vstd::prelude::*;
use crate::text::{join_path, joined};

verus! {

/// The directories a release is installed into.
#[derive(Debug)]
pub struct Hierarchy {
    pub gamedir: String,
    pub assets_dir: String,
    pub libraries_dir: String,
    pub version_dir: String,
    pub natives_dir: String,
}

/// `h` is the standard layout below `root` for release `id`.
pub open spec fn standard_layout(h: Hierarchy, root: Seq<char>, id: Seq<char>) -> bool {
    &&& h.gamedir@ == root
    &&& h.assets_dir@ == joined(root, "assets"@)
    &&& h.libraries_dir@ == joined(root, "libraries"@)
    &&& h.version_dir@ == joined(joined(root, "versions"@), id)
    &&& h.natives_dir@ == joined(h.version_dir@, "natives"@)
}

/// Relies on dirs::data_dir: the user's data directory, when the platform
/// has one and its path is valid UTF-8.
#[verifier::external_body]
fn user_data_dir() -> (r: Option<String>) {
    match dirs::data_dir() {
        Some(p) => p.into_os_string().into_string().ok(),
        None => None,
    }
}

/// Relies on dirs::home_dir: the user's home directory, when it is known
/// and its path is valid UTF-8.
#[verifier::external_body]
fn user_home_dir() -> (r: Option<String>) {
    match dirs::home_dir() {
        Some(p) => p.into_os_string().into_string().ok(),
        None => None,
    }
}

impl Hierarchy {
    /// The standard layout below `gamedir` for release `id`.
    pub fn with_root(gamedir: String, id: &str) -> (r: Hierarchy)
        ensures
            standard_layout(r, gamedir@, id@),
    {
        let assets_dir = join_path(&gamedir, "assets");
        let libraries_dir = join_path(&gamedir, "libraries");
        let versions_dir = join_path(&gamedir, "versions");
        let version_dir = join_path(&versions_dir, id);
        let natives_dir = join_path(&version_dir, "natives");
        Hierarchy { gamedir, assets_dir, libraries_dir, version_dir, natives_dir }
    }

    /// The standard layout in `minecraft` below the user's data directory, or
    /// else in `.minecraft` below the home directory; `None` when neither is known.
    pub fn with_default_structure(id: &str) -> (r: Option<Hierarchy>)
        ensures
            r is Some ==> exists|base: Seq<char>|
                standard_layout(r->0, joined(base, "minecraft"@), id@) || standard_layout(
                    r->0,
                    joined(base, ".minecraft"@),
                    id@,
                ),
    {
        match user_data_dir() {
            Some(data) => {
                let root = join_path(&data, "minecraft");
                let h = Self::with_root(root, id);
                assert(standard_layout(h, joined(data@, "minecraft"@), id@));
                Some(h)
            },
            None => match user_home_dir() {
                Some(home) => {
                    let root = join_path(&home, ".minecraft");
                    let h = Self::with_root(root, id);
                    assert(standard_layout(h, joined(home@, ".minecraft"@), id@));
                    Some(h)
                },
                None => None,
            },
        }
    }
}

} // verus!
