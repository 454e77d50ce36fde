//! A small evolutionary-computation engine: fitness-proportionate selection,
//! uniform crossover and bounded mutation over integer gene sequences, composed
//! into one generational step that threads a single seeded random stream.
use vstd::prelude::*;
use rand::rngs::StdRng;

pub mod chromosome;
pub mod error;
pub mod random;
pub mod simple_methods;
pub mod strategy;

pub use crate::chromosome::Chromosome;
pub use crate::error::GaError;
pub use crate::simple_methods::{SimpleCrossover, SimpleMutation, SimpleSelection};
pub use crate::strategy::{
    genes_drawn_from, some_member_fit, CrossoverMethod, Individual, MutationMethod, SelectionMethod,
};

use crate::random::rng_from_seed;

verus! {

/// Every member of `population` carries as many genes as the first.
pub open spec fn same_genome_length<I: Individual>(population: Seq<I>) -> bool {
    forall|i: int|
        0 <= i < population.len() ==> #[trigger] population[i].genes().len()
            == population[0].genes().len()
}

/// `c` is as long as `a`, and each of its genes is within `step` of the gene
/// at the same position of `a` or of `b`.
pub open spec fn near_either(c: Seq<i64>, a: Seq<i64>, b: Seq<i64>, step: int) -> bool {
    &&& c.len() == a.len()
    &&& forall|j: int|
        0 <= j < c.len() ==> (-step <= #[trigger] c[j] - a[j] <= step) || (-step <= c[j] - b[j]
            <= step)
}

/// Member `m` of `population` may parent an offspring: it exists, and has
/// positive fitness wherever some member has.
pub open spec fn eligible_parent<I: Individual>(population: Seq<I>, m: int) -> bool {
    &&& 0 <= m < population.len()
    &&& some_member_fit(population) ==> population[m].fitness_of() > 0
}

/// Each gene of `child` is within `step` of the gene at the same position of
/// some eligible parent in `population`.
pub open spec fn bred_from<I: Individual>(population: Seq<I>, child: Seq<i64>, step: int) -> bool {
    forall|j: int|
        0 <= j < child.len() ==> exists|m: int|
            eligible_parent(population, m) && -step <= #[trigger] child[j]
                - population[m].genes()[j] <= step
}

/// The engine: one random stream and three strategies, fixed for its
/// lifetime, that breed each generation from the one before.
pub struct GeneticAlgorithm<S, C, M> {
    rng: StdRng,
    selection_method: S,
    crossover_method: C,
    mutation_method: M,
}

impl<S: SelectionMethod, C: CrossoverMethod, M: MutationMethod> GeneticAlgorithm<S, C, M> {
    /// The selection, crossover and mutation strategies, in that order.
    pub closed spec fn strategies(&self) -> (S, C, M) {
        (self.selection_method, self.crossover_method, self.mutation_method)
    }

    /// An engine with the given strategies and a stream from the fixed seed 0.
    pub fn new(selection_method: S, crossover_method: C, mutation_method: M) -> (r: Self)
        ensures
            r.strategies() == (selection_method, crossover_method, mutation_method),
    {
        Self::with_seed(0, selection_method, crossover_method, mutation_method)
    }

    /// An engine with the given strategies whose stream is fixed by `seed`.
    pub fn with_seed(seed: u64, selection_method: S, crossover_method: C, mutation_method: M) -> (r:
        Self)
        ensures
            r.strategies() == (selection_method, crossover_method, mutation_method),
    {
        GeneticAlgorithm { rng: rng_from_seed(seed), selection_method, crossover_method, mutation_method }
    }

    /// One offspring of the parent sequences `a` and `b`: their crossover,
    /// then mutated; `LengthMismatch` when they differ in length. Each of its
    /// genes is within the mutation strategy's step of the gene at the same
    /// position of `a` or of `b`.
    pub fn breed(&mut self, a: &Chromosome, b: &Chromosome) -> (r: Result<Chromosome, GaError>)
        ensures
            final(self).strategies() == old(self).strategies(),
            a@.len() != b@.len() ==> r == Err::<Chromosome, GaError>(GaError::LengthMismatch),
            a@.len() == b@.len() ==> (r matches Ok(c) && near_either(
                c@,
                a@,
                b@,
                old(self).strategies().2.max_step() as int,
            )),
    {
        let mut child: Chromosome = match self.crossover_method.crossover(&mut self.rng, a, b) {
            Ok(c) => c,
            Err(e) => return Err(e),
        };
        let ghost crossed = child@;
        self.mutation_method.mutate(&mut self.rng, &mut child);
        let ghost step = self.mutation_method.max_step() as int;
        assert forall|j: int| 0 <= j < child@.len() implies (-step <= #[trigger] child@[j] - a@[j]
            <= step) || (-step <= child@[j] - b@[j] <= step) by {
            assert(-step <= child@[j] - crossed[j] <= step);
            assert(crossed[j] == a@[j] || crossed[j] == b@[j]);
        }
        Ok(child)
    }

    /// The next generation, as large as `population`: for each of its
    /// members, two parents are selected from it, bred, and a new individual
    /// built from the offspring. Fails with `EmptyPopulation` on an empty
    /// population, with `LengthMismatch` only where two parents differ in
    /// genome length, and never where all members share one. Each offspring
    /// gene is within the mutation strategy's step of the gene at the same
    /// position of a member, one of positive fitness wherever there is one.
    pub fn evolve<I: Individual>(&mut self, population: &[I]) -> (r: Result<Vec<I>, GaError>)
        ensures
            final(self).strategies() == old(self).strategies(),
            population@.len() == 0 ==> r == Err::<Vec<I>, GaError>(GaError::EmptyPopulation),
            population@.len() > 0 ==> (r is Ok || r == Err::<Vec<I>, GaError>(
                GaError::LengthMismatch,
            )),
            population@.len() > 0 && same_genome_length(population@) ==> r is Ok,
            r matches Ok(next) ==> next@.len() == population@.len(),
            r matches Ok(next) ==> forall|k: int|
                0 <= k < next@.len() ==> bred_from(
                    population@,
                    (#[trigger] next@[k]).genes(),
                    old(self).strategies().2.max_step() as int,
                ),
            same_genome_length(population@) ==> (r matches Ok(next) ==> forall|k: int|
                0 <= k < next@.len() ==> (#[trigger] next@[k]).genes().len()
                    == population@[0].genes().len()),
    {
        let n: usize = population.len();
        if n == 0 {
            return Err(GaError::EmptyPopulation);
        }
        let ghost step = self.mutation_method.max_step() as int;
        let mut next: Vec<I> = Vec::new();
        let mut k: usize = 0;
        while k < n
            invariant
                n == population@.len(),
                0 < n,
                k <= n,
                next@.len() == k,
                self.strategies() == old(self).strategies(),
                step == self.mutation_method.max_step(),
                forall|j: int|
                    0 <= j < k ==> bred_from(population@, (#[trigger] next@[j]).genes(), step),
                same_genome_length(population@) ==> forall|j: int|
                    0 <= j < k ==> (#[trigger] next@[j]).genes().len() == population@[0].genes().len(),
            decreases n - k,
        {
            let a: &I = match self.selection_method.select(&mut self.rng, population) {
                Ok(x) => x,
                Err(e) => return Err(e),
            };
            let b: &I = match self.selection_method.select(&mut self.rng, population) {
                Ok(x) => x,
                Err(e) => return Err(e),
            };
            let ghost ia = choose|i: int| 0 <= i < population@.len() && *a == population@[i];
            let ghost ib = choose|i: int| 0 <= i < population@.len() && *b == population@[i];
            let child: Chromosome = match self.breed(a.chromosome(), b.chromosome()) {
                Ok(c) => c,
                Err(e) => {
                    proof {
                        if same_genome_length(population@) {
                            assert(population@[ia].genes().len() == population@[0].genes().len());
                            assert(population@[ib].genes().len() == population@[0].genes().len());
                        }
                    }
                    return Err(e);
                },
            };
            let born: I = I::create(child);
            proof {
                assert(eligible_parent(population@, ia));
                assert(eligible_parent(population@, ib));
                assert forall|j: int| 0 <= j < born.genes().len() implies exists|m: int|
                    eligible_parent(population@, m) && -step <= #[trigger] born.genes()[j]
                        - population@[m].genes()[j] <= step by {
                    if -step <= child@[j] - a.genes()[j] <= step {
                        assert(eligible_parent(population@, ia) && -step <= born.genes()[j]
                            - population@[ia].genes()[j] <= step);
                    } else {
                        assert(eligible_parent(population@, ib) && -step <= born.genes()[j]
                            - population@[ib].genes()[j] <= step);
                    }
                }
                if same_genome_length(population@) {
                    assert(population@[ia].genes().len() == population@[0].genes().len());
                }
            }
            next.push(born);
            proof {
                assert(next@[k as int] == born);
            }
            k = k + 1;
        }
        Ok(next)
    }
}

} // verus!
