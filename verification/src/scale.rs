use vstd::prelude::*;

verus! {

/// A window's scale factor — how many physical pixels one logical point
/// covers — held as a plain count of thousandths, so that a ratio such as
/// 1.5 is carried as 1500.
#[derive(Clone, Copy, PartialEq, Eq, Structural, Debug)]
pub struct ScaleFactor {
    /// Thousandths of the pixels-per-point ratio.
    pub thousandths: u32,
}

impl ScaleFactor {
    /// Wrap a ratio given in thousandths.
    pub fn from_thousandths(thousandths: u32) -> (r: ScaleFactor)
        ensures
            r.thousandths == thousandths,
    {
        ScaleFactor { thousandths }
    }
}

} // verus!
