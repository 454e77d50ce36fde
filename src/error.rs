use vstd::prelude::*;

verus! {

/// The ways in which a generation step or a strategy can refuse its inputs.
#[derive(Debug, Clone, Copy, PartialEq, Eq, Structural)]
pub enum GaError {
    /// Selection was asked to pick from a population with no members.
    EmptyPopulation,
    /// Crossover was given two gene sequences of different lengths.
    LengthMismatch,
    /// A mutation strategy was configured with a chance outside `[0, 1]`.
    InvalidConfiguration,
}

} // verus!
