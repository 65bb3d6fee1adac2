use vstd::prelude::*;

verus! {

/// The consoles the catalogue knows.
#[derive(Debug, Clone, Copy, PartialEq, Eq, Hash, Structural)]
pub enum System {
    Nes,
    Snes,
    Gbc,
    Gba,
}

/// The record kept beside each saved moment ("byte"): which core, version
/// and ROM produced its state, and how it is presented.
#[derive(Debug, Clone)]
pub struct ByteMetadata {
    pub byte_id: String,
    pub system: System,
    pub core_id: String,
    pub core_semver: String,
    pub rom_sha1: String,
    pub region: Option<String>,
    pub title: String,
    pub description: String,
    pub tags: Vec<String>,
    pub author: String,
    pub created_at: String,
    pub thumbnail_path: String,
    pub state_path: String,
}

} // verus!
