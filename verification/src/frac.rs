use vstd::prelude::*;

verus! {

/// An exact rational number `num / den` with a positive denominator.
///
/// Pixel-space positions produced by the plot transform are ratios of
/// integer quantities; keeping them as fractions makes the transform
/// exact, with no rounding anywhere in the library.
#[derive(Clone, Copy, Debug, PartialEq, Eq, Structural)]
pub struct Frac {
    pub num: i128,
    pub den: i128,
}

impl Frac {
    /// Well-formed: the denominator is positive.
    pub open spec fn wf(self) -> bool {
        self.den > 0
    }

}

} // verus!
