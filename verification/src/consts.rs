use vstd::prelude::*;

verus! {

/// Number of players in sanma.
pub const NUM_PLAYERS: usize = 3;

/// Newest observation-encoding version.
pub const MAX_VERSION: u32 = 5;

/// Size of the action space of the trained three-player model:
/// 37 discards / kan choices, riichi, nukidora, pon, kan, agari, ryukyoku
/// and pass (chi does not exist in sanma).
pub const ACTION_SPACE: usize = 37 + 1 + 1 + 1 + 1 + 1 + 1 + 1;

/// Size of the canonical (forward-compatible) action layout: the trained
/// layout with the three chi slots (low, mid, high) at indices 39, 40, 41.
pub const CANONICAL_ACTION_SPACE: usize = 47;

/// GRP input size: grand kyoku, honba, kyotaku and the three scores.
pub const GRP_SIZE: usize = 6;

/// The observation shape of each encoding version.
pub open spec fn obs_shape_of(version: u32) -> (usize, usize) {
    if version == 1 {
        (938, 34)
    } else if version == 2 {
        (942, 34)
    } else if version == 3 {
        (934, 34)
    } else if version == 4 {
        (1012, 34)
    } else {
        (775, 34)
    }
}

/// The oracle observation shape of each encoding version.
pub open spec fn oracle_obs_shape_of(version: u32) -> (usize, usize) {
    if version == 1 {
        (211, 34)
    } else if version == 2 || version == 3 || version == 4 {
        (217, 34)
    } else {
        (145, 34)
    }
}

/// Whether `version` names an observation encoding.
pub open spec fn is_known_version(version: u32) -> bool {
    1 <= version <= MAX_VERSION
}

/// Observation shape of `version`. Versions 1 to 4 are the legacy
/// four-player encodings, kept for reference; 5 is the sanma encoding.
pub fn obs_shape(version: u32) -> (shape: (usize, usize))
    requires
        is_known_version(version),
    ensures
        shape == obs_shape_of(version),
{
    match version {
        1 => (938, 34),
        2 => (942, 34),
        3 => (934, 34),
        4 => (1012, 34),
        _ => (775, 34),
    }
}

/// Oracle observation shape of `version`.
pub fn oracle_obs_shape(version: u32) -> (shape: (usize, usize))
    requires
        is_known_version(version),
    ensures
        shape == oracle_obs_shape_of(version),
{
    match version {
        1 => (211, 34),
        2 | 3 | 4 => (217, 34),
        _ => (145, 34),
    }
}

} // verus!
