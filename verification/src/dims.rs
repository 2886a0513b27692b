//! Shapes of up to three dimensions and their flat lengths.

use vstd::prelude::*;

verus! {

/// A shape: no extent at all, or the extents of one, two or three axes.
#[derive(Clone, Copy, PartialEq, Eq, Structural, Debug, Hash)]
pub enum SpatialDims {
    Unspecified,
    One(usize),
    Two(usize, usize),
    Three(usize, usize, usize),
}

impl SpatialDims {
    /// The number of elements the shape spans: the product of its extents, and
    /// zero where no extent is given.
    pub open spec fn spec_len(self) -> nat {
        match self {
            SpatialDims::Unspecified => 0,
            SpatialDims::One(d0) => d0 as nat,
            SpatialDims::Two(d0, d1) => (d0 * d1) as nat,
            SpatialDims::Three(d0, d1, d2) => (d0 * d1 * d2) as nat,
        }
    }

    /// The number of elements the shape spans, or `None` where that number
    /// does not fit in a `usize`.
    pub fn checked_len(&self) -> (len: Option<usize>)
        ensures
            match len {
                Some(n) => n == self.spec_len(),
                None => self.spec_len() > usize::MAX,
            },
    {
        match *self {
            SpatialDims::Unspecified => Some(0),
            SpatialDims::One(d0) => Some(d0),
            SpatialDims::Two(d0, d1) => d0.checked_mul(d1),
            SpatialDims::Three(d0, d1, d2) => {
                if d2 == 0 {
                    assert(d0 * d1 * d2 == 0) by (nonlinear_arith)
                        requires
                            d2 == 0,
                    ;
                    return Some(0);
                }
                match d0.checked_mul(d1) {
                    Some(d01) => d01.checked_mul(d2),
                    None => {
                        assert(d0 * d1 * d2 >= d0 * d1) by (nonlinear_arith)
                            requires
                                d2 >= 1,
                                d0 * d1 >= 0,
                        ;
                        None
                    },
                }
            },
        }
    }

    /// The number of elements the shape spans.
    pub fn to_len(&self) -> (len: usize)
        requires
            self.spec_len() <= usize::MAX,
        ensures
            len == self.spec_len(),
    {
        match *self {
            SpatialDims::Unspecified => 0,
            SpatialDims::One(d0) => d0,
            SpatialDims::Two(d0, d1) => d0 * d1,
            SpatialDims::Three(d0, d1, d2) => {
                if d2 == 0 {
                    assert(d0 * d1 * d2 == 0) by (nonlinear_arith)
                        requires
                            d2 == 0,
                    ;
                    0
                } else {
                    assert(d0 * d1 <= d0 * d1 * d2) by (nonlinear_arith)
                        requires
                            d2 >= 1,
                            d0 * d1 >= 0,
                    ;
                    d0 * d1 * d2
                }
            },
        }
    }
}

} // verus!
