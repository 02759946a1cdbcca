use vstd::prelude::*;

use crate::consts::{is_known_version, obs_shape_of};

verus! {

/// The observation shape of `version` as the two numbers a JavaScript
/// caller receives.
pub fn obs_shape(version: u32) -> (dims: Vec<u32>)
    requires
        is_known_version(version),
    ensures
        dims@ == seq![obs_shape_of(version).0 as u32, obs_shape_of(version).1 as u32],
{
    let s = crate::consts::obs_shape(version);
    let mut dims: Vec<u32> = Vec::new();
    dims.push(s.0 as u32);
    dims.push(s.1 as u32);
    dims
}

} // verus!
