//! What the engine asks of an individual and of each of its three strategies.
use vstd::prelude::*;
use rand::rngs::StdRng;
use crate::chromosome::Chromosome;
use crate::error::GaError;

verus! {

/// A candidate solution: built from a gene sequence, it shows that sequence
/// back and scores itself with a non-negative fitness.
///
/// The two spec functions are what the method contracts speak of. Code that
/// is generic over `Individual` never sees their default bodies; those only
/// spare an implementation written outside Verus from restating them.
pub trait Individual: Sized {
    /// The genes this individual carries.
    closed spec fn genes(&self) -> Seq<i64> {
        Seq::empty()
    }

    /// The fitness score of this individual.
    closed spec fn fitness_of(&self) -> u64 {
        0
    }

    /// Builds an individual that carries exactly the given genes.
    fn create(chromosome: Chromosome) -> (r: Self)
        ensures
            r.genes() == chromosome@,
    ;

    /// Read access to the individual's genes.
    fn chromosome(&self) -> (r: &Chromosome)
        ensures
            r@ == self.genes(),
    ;

    /// The individual's fitness; larger is fitter.
    fn fitness(&self) -> (r: u64)
        ensures
            r == self.fitness_of(),
    ;
}

/// Some member of `population` has positive fitness.
pub open spec fn some_member_fit<I: Individual>(population: Seq<I>) -> bool {
    exists|j: int| 0 <= j < population.len() && #[trigger] population[j].fitness_of() > 0
}

/// `c` has the length of `a` and `b`, and each of its genes is the gene at
/// the same position of `a` or of `b`.
pub open spec fn genes_drawn_from(c: Seq<i64>, a: Seq<i64>, b: Seq<i64>) -> bool {
    &&& c.len() == a.len()
    &&& c.len() == b.len()
    &&& forall|i: int| 0 <= i < c.len() ==> #[trigger] c[i] == a[i] || c[i] == b[i]
}

/// Picks one member of a population, favouring fitter members.
pub trait SelectionMethod {
    /// One member of `population`, or `EmptyPopulation` when it has none.
    /// While some member has positive fitness, the one picked has too.
    fn select<'a, I: Individual>(&self, rng: &mut StdRng, population: &'a [I]) -> (r: Result<
        &'a I,
        GaError,
    >)
        ensures
            population@.len() == 0 ==> r matches Err(GaError::EmptyPopulation),
            population@.len() > 0 ==> (r matches Ok(x) && exists|i: int|
                0 <= i < population@.len() && *x == population@[i]),
            r matches Ok(x) ==> (some_member_fit(population@) ==> x.fitness_of() > 0),
    ;
}

/// Combines two gene sequences into one offspring, gene by gene.
pub trait CrossoverMethod {
    /// An offspring each of whose genes is the gene at the same position of
    /// `a` or of `b`, or `LengthMismatch` when the parents differ in length.
    fn crossover(&self, rng: &mut StdRng, a: &Chromosome, b: &Chromosome) -> (r: Result<
        Chromosome,
        GaError,
    >)
        ensures
            a@.len() != b@.len() ==> r == Err::<Chromosome, GaError>(GaError::LengthMismatch),
            a@.len() == b@.len() ==> (r matches Ok(c) && genes_drawn_from(c@, a@, b@)),
    ;
}

/// Perturbs a gene sequence in place, each gene by a bounded amount.
pub trait MutationMethod {
    /// The largest change `mutate` makes to any one gene.
    spec fn max_step(&self) -> u64;

    /// Changes genes of `chromosome`, never its length, and none by more than
    /// `max_step`.
    fn mutate(&self, rng: &mut StdRng, chromosome: &mut Chromosome)
        ensures
            final(chromosome)@.len() == old(chromosome)@.len(),
            forall|i: int|
                0 <= i < old(chromosome)@.len() ==> -(self.max_step() as int)
                    <= #[trigger] final(chromosome)@[i] - old(chromosome)@[i]
                    <= self.max_step(),
    ;
}

} // verus!
