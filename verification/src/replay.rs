use vstd::prelude::*;

verus! {

/// The cosmetic selections recorded in a replay file's outer envelope. The
/// envelope itself is parsed outside the library; this plain value is what
/// the library's consumers hand around.
#[derive(Debug, Clone, PartialEq)]
pub struct ReplayCosmetics {
    pub skin: String,
    pub trail: String,
    pub respawn: String,
    pub hat: String,
    pub blast: String,
}

} // verus!
