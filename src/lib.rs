//! Synchronises the files of a game release onto local disk and assembles
//! the launch command from the same release description.
//!
//! Everything here is pure logic with contracts: the rule evaluator, the
//! manifest compiler that flattens a release into resource descriptors, the
//! integrity decision, the fetch scheduler and the argument template engine.
//! Network, disk and process work is left to the caller.
use vstd::prelude::*;

pub mod assets;
pub mod command;
pub mod compile;
pub mod descriptor;
pub mod hierarchy;
pub mod integrity;
pub mod manifest;
pub mod metadata;
pub mod rules;
pub mod sync;
pub mod template;
pub mod text;

verus! {

/// The failures this library reports.
#[derive(Clone, Copy, Debug, PartialEq, Eq, Structural)]
pub enum Error {
    /// The platform has no native classifier, so natives cannot be installed.
    UnsupportedPlatform,
    /// An asset hash is too short to derive its sharded path, or two assets
    /// share a virtual path.
    MalformedAssetIndex,
}

} // verus!
