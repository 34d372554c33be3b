//! 16-bit linear light to 8-bit gamma-compressed sample conversion.
use vstd::prelude::*;

verus! {

/// Number of entries of a gamma compression table: one per 16 linear
/// light levels.
pub const GAMMA_LUT_SIZE: usize = 4096;

/// The 8-bit sample that table `lut` gives the 16-bit pixel `x`: the
/// entry of its 12 most significant bits.
pub open spec fn gamma_sample(lut: Seq<u8>, x: u16) -> u8 {
    lut[x as int / 16]
}

/// 16-bit to 8-bit gamma compression curve lookup table.
pub struct GammaCurve8 {
    /// One 8-bit sample per 16 linear light levels
    lut: Vec<u8>,
}

impl View for GammaCurve8 {
    type V = Seq<u8>;

    closed spec fn view(&self) -> Seq<u8> {
        self.lut@
    }
}

impl GammaCurve8 {
    /// The table has one entry per 12-bit index.
    pub open spec fn wf(&self) -> bool {
        self@.len() == GAMMA_LUT_SIZE
    }

    /// Wraps a table of the curve's samples; `None` unless it has exactly
    /// one entry per 12-bit index.
    pub fn new(lut: Vec<u8>) -> (r: Option<GammaCurve8>)
        ensures
            r is Some <==> lut@.len() == GAMMA_LUT_SIZE,
            r matches Some(c) ==> c.wf() && c@ == lut@,
    {
        if lut.len() == GAMMA_LUT_SIZE {
            Some(GammaCurve8 { lut })
        } else {
            None
        }
    }

    /// Converts a 16-bit linear light sample into an 8-bit
    /// gamma-compressed sample.
    pub fn transform(&self, x: u16) -> (r: u8)
        requires
            self.wf(),
        ensures
            r == gamma_sample(self@, x),
    {
        self.lut[(x / 16) as usize]
    }
}

} // verus!
