use vstd::prelude::*;

verus! {

/// Common surface of both scoring results: the three domain sums (A, B, C)
/// and the high-stress classification derived from them. Each implementor
/// fixes its own threshold rule in `spec_has_stress`.
pub trait Stress {
    /// Validity of the score value: the domain sums (or evaluation points)
    /// lie in the ranges a fully populated store can produce.
    spec fn inv(&self) -> bool;

    /// The three domain sums (A, B, C) at specification level.
    spec fn spec_scores(&self) -> (int, int, int);

    /// The method-specific threshold rule over the domain sums.
    spec fn spec_has_stress(&self) -> bool;

    /// Returns the three domain sums (A, B, C).
    fn scores(&self) -> (r: (u8, u8, u8))
        requires
            self.inv(),
        ensures
            (r.0 as int, r.1 as int, r.2 as int) == self.spec_scores(),
    ;

    /// Applies the method-specific fixed threshold rule to the domain sums
    /// and returns the high-stress classification.
    fn has_stress(&self) -> (r: bool)
        requires
            self.inv(),
        ensures
            r == self.spec_has_stress(),
    ;
}

} // verus!
