//! Settings of the hit particle sprites.

use vstd::prelude::*;

verus! {

/// A sprite atlas of `n` columns and `m` rows, of which the frames
/// `start_index..=end_index` are played.
#[derive(Debug, Clone, Copy, PartialEq, Eq, Structural)]
pub struct AtlasConfig {
    pub n: u16,
    pub m: u16,
    pub start_index: u16,
    pub end_index: u16,
}

impl AtlasConfig {
    pub fn new(n: u16, m: u16, start: u16, end: u16) -> (r: AtlasConfig)
        ensures
            r == (AtlasConfig { n, m, start_index: start, end_index: end }),
    {
        AtlasConfig { n, m, start_index: start, end_index: end }
    }
}

/// How particles are blended into the picture.
#[derive(Debug, Clone, Copy, PartialEq, Eq, Structural)]
pub enum BlendMode {
    Alpha,
    Add,
}

} // verus!
