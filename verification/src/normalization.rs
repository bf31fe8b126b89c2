//! Whether integer vertex data requires normalization, and the choice
//! of constructor that follows from it.

use vstd::prelude::*;

verus! {

/// Represents whether integer data requires normalization.
#[derive(Clone, Copy, Debug, PartialEq, Eq, Structural)]
pub struct Normalization(pub bool);

impl Normalization {
    /// Applies the normalized constructor to `value` when
    /// normalization is required, the unnormalized one otherwise.
    pub fn apply_either<T, U, FN, FU>(
        self,
        value: T,
        normalized_ctor: FN,
        unnormalized_ctor: FU,
    ) -> (r: U) where FN: Fn(T) -> U, FU: Fn(T) -> U
        requires
            self.0 ==> normalized_ctor.requires((value,)),
            !self.0 ==> unnormalized_ctor.requires((value,)),
        ensures
            self.0 ==> normalized_ctor.ensures((value,), r),
            !self.0 ==> unnormalized_ctor.ensures((value,), r),
    {
        if self.0 {
            normalized_ctor(value)
        } else {
            unnormalized_ctor(value)
        }
    }
}

} // verus!
