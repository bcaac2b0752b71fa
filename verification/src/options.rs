//! What a caller asks of a conversion.

use vstd::prelude::*;

verus! {

/// The resolution with which a curve is turned into straight segments
/// when the caller names none.
pub const DEFAULT_SPLINE_STEP: u32 = 20;

/// The lowest documented resolution.
pub const MIN_SPLINE_STEP: u32 = 1;

/// The highest documented resolution.
pub const MAX_SPLINE_STEP: u32 = 200;

/// The settings of one conversion.
#[derive(Clone, Copy, Debug)]
pub struct ConversionOptions {
    /// The number of straight segments that stand for one curve.
    pub spline_step: u32,
    /// Whether the markup is handed back as text, and no file is written.
    pub verbose: bool,
    /// Whether the result carries the statistics.
    pub info: bool,
}

/// Where the markup of a conversion goes. It goes to exactly one place.
#[derive(Clone, Copy, Debug, PartialEq, Eq, Structural)]
pub enum Output {
    /// The markup is part of the result, and no file is written.
    Text,
    /// The markup is written to one file, and the result holds none.
    File,
}

impl ConversionOptions {
    /// Whether the resolution lies in the documented range.
    pub open spec fn in_range(self) -> bool {
        MIN_SPLINE_STEP <= self.spline_step <= MAX_SPLINE_STEP
    }

    /// Where the markup goes under these settings.
    pub open spec fn output_spec(self) -> Output {
        if self.verbose {
            Output::Text
        } else {
            Output::File
        }
    }

    /// Tells whether the resolution lies in the documented range.
    pub fn has_documented_step(&self) -> (b: bool)
        ensures
            b == self.in_range(),
    {
        MIN_SPLINE_STEP <= self.spline_step && self.spline_step <= MAX_SPLINE_STEP
    }

    /// Tells where the markup goes under these settings.
    pub fn output(&self) -> (o: Output)
        ensures
            o == self.output_spec(),
    {
        if self.verbose {
            Output::Text
        } else {
            Output::File
        }
    }
}

impl Default for ConversionOptions {
    /// The default settings: resolution 20, markup to a file, no statistics.
    fn default() -> (options: Self)
        ensures
            options.spline_step == DEFAULT_SPLINE_STEP,
            !options.verbose,
            !options.info,
            options.in_range(),
    {
        ConversionOptions { spline_step: DEFAULT_SPLINE_STEP, verbose: false, info: false }
    }
}

} // verus!
