//! Beat positions.

use vstd::prelude::*;

verus! {

/// The beat position `i + n / d`.
#[derive(Debug, Clone, Copy, PartialEq, Eq, Structural)]
pub struct Triple(pub i32, pub u32, pub u32);

impl Triple {
    pub fn new(i: i32, n: u32, d: u32) -> (r: Triple)
        ensures
            r == Triple(i, n, d),
    {
        Triple(i, n, d)
    }

    /// The position as the fraction `num / den` beats (`den > 0`).
    pub open spec fn spec_fraction(self) -> (int, int) {
        (self.0 * self.2 + self.1, self.2 as int)
    }

    /// The position as a fraction `(num, den)` of beats, when the
    /// denominator is not zero.
    pub fn beats_fraction(&self) -> (r: Option<(i64, u32)>)
        ensures
            self.2 == 0 ==> r is None,
            self.2 != 0 ==> r == Some((self.spec_fraction().0 as i64, self.2)),
    {
        if self.2 == 0 {
            return None;
        }
        proof {
            assert(self.0 as int * self.2 as int <= 0x7fff_ffff * 0xffff_ffff) by (nonlinear_arith)
                requires
                    self.0 <= 0x7fff_ffff,
                    self.2 <= 0xffff_ffff,
            ;
            assert(self.0 as int * self.2 as int >= -0x8000_0000 * 0xffff_ffff) by (nonlinear_arith)
                requires
                    self.0 >= -0x8000_0000,
                    self.2 <= 0xffff_ffff,
            ;
        }
        Some(((self.0 as i64) * (self.2 as i64) + self.1 as i64, self.2))
    }
}

} // verus!
