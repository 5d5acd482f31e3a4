//! Sampler configuration: filtering and addressing for a bound texture.

use vstd::prelude::*;

verus! {

/// How a sampled texture is filtered.
#[derive(Clone, Copy, PartialEq, Eq, Structural, Debug)]
pub enum FilterMethod {
    Point,
    Scale,
}

/// How coordinates outside the unit square are addressed.
#[derive(Clone, Copy, PartialEq, Eq, Structural, Debug)]
pub enum WrapMode {
    Tile,
    Clamp,
}

/// Immutable filtering and wrap configuration, owned independently of the
/// texture it samples so that it could be shared.
#[derive(Clone, Copy, PartialEq, Eq, Structural, Debug)]
pub struct SamplerInfo {
    pub filter: FilterMethod,
    pub wrap: WrapMode,
}

impl SamplerInfo {
    /// Build a sampler configuration from its two settings.
    pub fn new(filter: FilterMethod, wrap: WrapMode) -> (r: SamplerInfo)
        ensures
            r.filter == filter,
            r.wrap == wrap,
    {
        SamplerInfo { filter, wrap }
    }
}

} // verus!
