//! Plain value types for plot-space geometry: points, per-axis ranges and
//! combined X/Y limits.  Coordinates are plain integers.
use vstd::prelude::*;

verus! {

/// A point in plot space.
#[derive(Clone, Copy, Debug, PartialEq, Eq, Structural)]
pub struct PlotPoint {
    /// X coordinate, in plot space.
    pub x: i64,
    /// Y coordinate, in plot space.
    pub y: i64,
}

/// The range of a single axis, as a minimum and a maximum.
///
/// The type does not demand `min <= max`: the back end accepts inverted
/// ranges and normalises them itself, so the library passes them through.
#[derive(Clone, Copy, Debug, PartialEq, Eq, Structural)]
pub struct PlotRange {
    /// Lower end of the range.
    pub min: i64,
    /// Upper end of the range.
    pub max: i64,
}

/// The limits of a plot: one range for the X axis and one for a Y axis.
#[derive(Clone, Copy, Debug, PartialEq, Eq, Structural)]
pub struct PlotLimits {
    /// Limits of the X axis.
    pub x: PlotRange,
    /// Limits of the selected Y axis.
    pub y: PlotRange,
}

impl PlotRange {
    /// Build a range directly from its two ends.
    pub fn new(min: i64, max: i64) -> (r: PlotRange)
        ensures
            r == (PlotRange { min, max }),
    {
        PlotRange { min, max }
    }
}

impl From<core::ops::Range<i64>> for PlotRange {
    /// The range `start..end` maps to `[start, end]`.
    fn from(from: core::ops::Range<i64>) -> (r: PlotRange)
        ensures
            r == (PlotRange { min: from.start, max: from.end }),
    {
        PlotRange { min: from.start, max: from.end }
    }
}

impl vstd::std_specs::convert::FromSpecImpl<core::ops::Range<i64>> for PlotRange {
    open spec fn obeys_from_spec() -> bool {
        true
    }

    open spec fn from_spec(from: core::ops::Range<i64>) -> PlotRange {
        PlotRange { min: from.start, max: from.end }
    }
}

impl From<[i64; 2]> for PlotRange {
    /// The array `[a, b]` maps to `[a, b]`.
    fn from(from: [i64; 2]) -> (r: PlotRange)
        ensures
            r == (PlotRange { min: from[0], max: from[1] }),
    {
        PlotRange { min: from[0], max: from[1] }
    }
}

impl vstd::std_specs::convert::FromSpecImpl<[i64; 2]> for PlotRange {
    open spec fn obeys_from_spec() -> bool {
        true
    }

    open spec fn from_spec(from: [i64; 2]) -> PlotRange {
        PlotRange { min: from[0], max: from[1] }
    }
}

impl From<(i64, i64)> for PlotRange {
    /// The pair `(a, b)` maps to `[a, b]`.
    fn from(from: (i64, i64)) -> (r: PlotRange)
        ensures
            r == (PlotRange { min: from.0, max: from.1 }),
    {
        PlotRange { min: from.0, max: from.1 }
    }
}

impl vstd::std_specs::convert::FromSpecImpl<(i64, i64)> for PlotRange {
    open spec fn obeys_from_spec() -> bool {
        true
    }

    open spec fn from_spec(from: (i64, i64)) -> PlotRange {
        PlotRange { min: from.0, max: from.1 }
    }
}

} // verus!
