use vstd::prelude::*;

verus! {

/// Failure values returned by the answer store and the scorers.
#[derive(Debug, Clone, Copy, PartialEq, Eq, Structural)]
pub enum Error {
    /// A referenced question position is invalid: the number is 0, exceeds 57,
    /// or the store is already full on append.
    IllegalQuestion,
    /// A raw answer value is outside 1..=4, or a derived sub-scale raw sum
    /// falls outside its conversion table's covered domain.
    IllegalAnswer,
    /// An aggregation was requested while one or more of the 57 slots is
    /// still unset.
    NotFulfilled,
}

} // verus!
