//! The stock strategies: roulette-wheel selection, uniform crossover and
//! bounded per-gene mutation.
use vstd::prelude::*;
use rand::rngs::StdRng;
use crate::chromosome::Chromosome;
use crate::error::GaError;
use crate::random::{draw_at_most, trial, weighted_draw};
use crate::strategy::{
    genes_drawn_from, some_member_fit, CrossoverMethod, Individual, MutationMethod, SelectionMethod,
};

verus! {

/// The largest value of a `u64`, as a mathematical integer.
pub open spec fn max_weight() -> int {
    0xFFFF_FFFF_FFFF_FFFF
}

/// The sum of the first `k` weights of `w`.
pub open spec fn prefix_weight(w: Seq<u64>, k: int) -> int
    decreases k,
{
    if k <= 0 {
        0
    } else {
        prefix_weight(w, k - 1) + w[k - 1]
    }
}

/// The sum of all the weights of `w`.
pub open spec fn total_weight(w: Seq<u64>) -> int {
    prefix_weight(w, w.len() as int)
}

/// A prefix sum is within `k` times the largest weight.
proof fn lemma_prefix_weight_bound(w: Seq<u64>, k: int)
    requires
        0 <= k <= w.len(),
    ensures
        0 <= prefix_weight(w, k) <= k * max_weight(),
    decreases k,
{
    if k > 0 {
        lemma_prefix_weight_bound(w, k - 1);
    }
}

/// A prefix sum that runs past position `j` is at least the weight there.
proof fn lemma_prefix_weight_covers(w: Seq<u64>, j: int, k: int)
    requires
        0 <= j < k <= w.len(),
    ensures
        prefix_weight(w, k) >= w[j],
    decreases k,
{
    if k > j + 1 {
        lemma_prefix_weight_covers(w, j, k - 1);
    } else {
        lemma_prefix_weight_bound(w, j);
    }
}

/// One positive weight makes the total positive.
proof fn lemma_positive_weight_positive_total(w: Seq<u64>, j: int)
    requires
        0 <= j < w.len(),
        w[j] > 0,
    ensures
        total_weight(w) > 0,
{
    lemma_prefix_weight_covers(w, j, w.len() as int);
}

/// A prefix sum over a sequence that fits in a `usize` fits in a `u128`.
proof fn lemma_prefix_weight_fits(w: Seq<u64>, k: int)
    requires
        0 <= k <= w.len(),
        k <= usize::MAX,
    ensures
        prefix_weight(w, k) < 0x1_0000_0000_0000_0000_0000_0000_0000_0000,
{
    lemma_prefix_weight_bound(w, k);
    assert(k * max_weight() < 0x1_0000_0000_0000_0000_0000_0000_0000_0000) by (nonlinear_arith)
        requires
            0 <= k <= 0xFFFF_FFFF_FFFF_FFFF,
            max_weight() == 0xFFFF_FFFF_FFFF_FFFF,
    ;
}

/// The sum of `weights`, exactly.
pub fn sum_weights(weights: &Vec<u64>) -> (r: u128)
    ensures
        r == total_weight(weights@),
{
    let n: usize = weights.len();
    let mut acc: u128 = 0;
    let mut i: usize = 0;
    while i < n
        invariant
            n == weights@.len(),
            i <= n,
            acc == prefix_weight(weights@, i as int),
        decreases n - i,
    {
        proof {
            lemma_prefix_weight_fits(weights@, i + 1);
        }
        acc = acc + weights[i] as u128;
        i = i + 1;
    }
    acc
}

/// An index drawn with probability proportional to its weight; where every
/// weight is zero, every index is equally likely. An index of zero weight is
/// never drawn while some weight is positive.
pub fn pick_weighted(rng: &mut StdRng, weights: &Vec<u64>) -> (r: usize)
    requires
        weights@.len() > 0,
    ensures
        r < weights@.len(),
        total_weight(weights@) > 0 ==> weights@[r as int] > 0,
{
    let total: u128 = sum_weights(weights);
    if total == 0 {
        let last: u128 = (weights.len() - 1) as u128;
        draw_at_most(rng, last) as usize
    } else {
        weighted_draw(rng, weights)
    }
}

/// Fitness-proportionate (roulette-wheel) selection.
pub struct SimpleSelection;

impl SimpleSelection {
    /// The position of the member picked from `population`, drawn by
    /// `pick_weighted` over the members' fitness values in order;
    /// `EmptyPopulation` when there is none.
    pub fn select_index<I: Individual>(&self, rng: &mut StdRng, population: &[I]) -> (r: Result<
        usize,
        GaError,
    >)
        ensures
            population@.len() == 0 ==> r == Err::<usize, GaError>(GaError::EmptyPopulation),
            population@.len() > 0 ==> r is Ok,
            r matches Ok(i) ==> i < population@.len(),
            r matches Ok(i) ==> (some_member_fit(population@) ==> population@[i as int].fitness_of()
                > 0),
    {
        let n: usize = population.len();
        if n == 0 {
            return Err(GaError::EmptyPopulation);
        }
        let mut weights: Vec<u64> = Vec::new();
        let mut i: usize = 0;
        while i < n
            invariant
                n == population@.len(),
                i <= n,
                weights@.len() == i,
                forall|j: int| 0 <= j < i ==> weights@[j] == #[trigger] population@[j].fitness_of(),
            decreases n - i,
        {
            let w: u64 = population[i].fitness();
            weights.push(w);
            i = i + 1;
        }
        let k: usize = pick_weighted(rng, &weights);
        proof {
            if some_member_fit(population@) {
                let j = choose|j: int| 0 <= j < n && #[trigger] population@[j].fitness_of() > 0;
                lemma_positive_weight_positive_total(weights@, j);
            }
        }
        Ok(k)
    }
}

impl SelectionMethod for SimpleSelection {
    fn select<'a, I: Individual>(&self, rng: &mut StdRng, population: &'a [I]) -> (r: Result<
        &'a I,
        GaError,
    >)
        ensures
            r matches Ok(x) ==> (some_member_fit(population@) ==> x.fitness_of() > 0),
    {
        match self.select_index(rng, population) {
            Ok(k) => {
                let picked: &'a I = &population[k];
                assert(*picked == population@[k as int]);
                Ok(picked)
            },
            Err(e) => Err(e),
        }
    }
}

/// The offspring of `a` and `b` under the given per-position choices: where
/// `from_a[i]` holds, gene `i` comes from `a`, else from `b`.
pub fn cross_with(a: &Chromosome, b: &Chromosome, from_a: &Vec<bool>) -> (r: Chromosome)
    requires
        a@.len() == b@.len(),
        from_a@.len() == a@.len(),
    ensures
        r@ == Seq::new(a@.len(), |i: int| if from_a@[i] { a@[i] } else { b@[i] }),
{
    let n: usize = a.genes.len();
    let mut genes: Vec<i64> = Vec::new();
    let mut i: usize = 0;
    while i < n
        invariant
            n == a@.len(),
            a@.len() == b@.len(),
            from_a@.len() == n,
            i <= n,
            genes@ == Seq::new(i as nat, |j: int| if from_a@[j] { a@[j] } else { b@[j] }),
        decreases n - i,
    {
        let gene: i64 = if from_a[i] { a.genes[i] } else { b.genes[i] };
        genes.push(gene);
        i = i + 1;
        assert(genes@ =~= Seq::new(i as nat, |j: int| if from_a@[j] { a@[j] } else { b@[j] }));
    }
    Chromosome { genes }
}

/// Uniform crossover: each position, on its own coin flip, takes its gene
/// from `a` or from `b`, never a blend of the two.
pub struct SimpleCrossover;

impl SimpleCrossover {
    /// The uniform crossover of `a` and `b`, drawing one fair decision per
    /// position; `LengthMismatch` when they differ in length.
    pub fn uniform(&self, rng: &mut StdRng, a: &Chromosome, b: &Chromosome) -> (r: Result<
        Chromosome,
        GaError,
    >)
        ensures
            a@.len() != b@.len() ==> r == Err::<Chromosome, GaError>(GaError::LengthMismatch),
            a@.len() == b@.len() ==> (r matches Ok(c) && genes_drawn_from(c@, a@, b@)),
    {
        let n: usize = a.genes.len();
        if n != b.genes.len() {
            return Err(GaError::LengthMismatch);
        }
        let mut from_a: Vec<bool> = Vec::new();
        let mut i: usize = 0;
        while i < n
            invariant
                i <= n,
                from_a@.len() == i,
            decreases n - i,
        {
            from_a.push(trial(rng, 1, 2));
            i = i + 1;
        }
        let child: Chromosome = cross_with(a, b, &from_a);
        assert(forall|j: int| 0 <= j < n ==> #[trigger] child@[j] == a@[j] || child@[j] == b@[j]);
        Ok(child)
    }
}

impl CrossoverMethod for SimpleCrossover {
    fn crossover(&self, rng: &mut StdRng, a: &Chromosome, b: &Chromosome) -> (r: Result<
        Chromosome,
        GaError,
    >)
        ensures
            a@.len() == b@.len() ==> (r matches Ok(c) && genes_drawn_from(c@, a@, b@)),
    {
        self.uniform(rng, a, b)
    }
}

/// The value `x`, brought into the range of an `i64`.
pub open spec fn clamp_gene(x: int) -> i64 {
    if x < i64::MIN {
        i64::MIN
    } else if x > i64::MAX {
        i64::MAX
    } else {
        x as i64
    }
}

/// `gene` after one mutation draw: unchanged unless `hit`; else moved by
/// `magnitude`, down where `down` holds and up otherwise, stopping at the
/// bounds of an `i64`.
pub fn shift_gene(gene: i64, down: bool, hit: bool, magnitude: u64) -> (r: i64)
    ensures
        r == (if !hit {
            gene
        } else if down {
            clamp_gene(gene - magnitude)
        } else {
            clamp_gene(gene + magnitude)
        }),
{
    if !hit {
        return gene;
    }
    let wide: i128 = if down {
        gene as i128 - magnitude as i128
    } else {
        gene as i128 + magnitude as i128
    };
    if wide < i64::MIN as i128 {
        i64::MIN
    } else if wide > i64::MAX as i128 {
        i64::MAX
    } else {
        wide as i64
    }
}

/// Per-gene mutation: each gene, on its own trial that succeeds `numerator`
/// times in `denominator`, moves up or down (a fair coin) by at most
/// `coefficient`.
pub struct SimpleMutation {
    numerator: u32,
    denominator: u32,
    coefficient: u64,
}

impl SimpleMutation {
    /// The numerator of the mutation chance.
    pub closed spec fn chance_numerator(&self) -> u32 {
        self.numerator
    }

    /// The denominator of the mutation chance.
    pub closed spec fn chance_denominator(&self) -> u32 {
        self.denominator
    }

    /// The chance is a fraction within `[0, 1]`.
    #[verifier::type_invariant]
    spec fn chance_in_unit_range(&self) -> bool {
        0 < self.denominator && self.numerator <= self.denominator
    }

    /// A strategy that mutates each gene with chance
    /// `numerator / denominator`, by at most `coefficient`;
    /// `InvalidConfiguration` when that chance is not a fraction in `[0, 1]`.
    pub fn new(numerator: u32, denominator: u32, coefficient: u64) -> (r: Result<Self, GaError>)
        ensures
            (denominator == 0 || numerator > denominator) ==> r == Err::<Self, GaError>(
                GaError::InvalidConfiguration,
            ),
            (0 < denominator && numerator <= denominator) ==> (r matches Ok(m) && m.chance_numerator()
                == numerator && m.chance_denominator() == denominator && m.max_step()
                == coefficient),
    {
        if denominator == 0 || numerator > denominator {
            return Err(GaError::InvalidConfiguration);
        }
        Ok(SimpleMutation { numerator, denominator, coefficient })
    }

    /// Mutates every gene of `chromosome` on its own: a fair coin picks the
    /// direction, a trial with the configured chance decides whether it moves,
    /// and a move is by a uniform amount in `0..coefficient` (none where the
    /// coefficient is zero). No gene moves by more than the coefficient, and
    /// with a zero chance none moves.
    pub fn perturb(&self, rng: &mut StdRng, chromosome: &mut Chromosome)
        ensures
            final(chromosome)@.len() == old(chromosome)@.len(),
            forall|i: int|
                0 <= i < old(chromosome)@.len() ==> -(self.max_step() as int)
                    <= #[trigger] final(chromosome)@[i] - old(chromosome)@[i]
                    <= self.max_step(),
            self.chance_numerator() == 0 ==> final(chromosome)@ == old(chromosome)@,
    {
        proof {
            use_type_invariant(self);
        }
        let n: usize = chromosome.genes.len();
        let mut i: usize = 0;
        while i < n
            invariant
                n == old(chromosome)@.len(),
                chromosome@.len() == n,
                i <= n,
                0 < self.denominator,
                self.numerator <= self.denominator,
                forall|j: int| i <= j < n ==> chromosome@[j] == old(chromosome)@[j],
                forall|j: int|
                    0 <= j < i ==> -(self.coefficient as int) <= #[trigger] chromosome@[j]
                        - old(chromosome)@[j] <= self.coefficient,
                self.numerator == 0 ==> chromosome@ == old(chromosome)@,
            decreases n - i,
        {
            let down: bool = trial(rng, 1, 2);
            let hit: bool = trial(rng, self.numerator, self.denominator);
            let magnitude: u64 = if hit && self.coefficient > 0 {
                draw_at_most(rng, (self.coefficient - 1) as u128) as u64
            } else {
                0
            };
            let gene: i64 = chromosome.genes[i];
            let moved: i64 = shift_gene(gene, down, hit, magnitude);
            chromosome.genes.set(i, moved);
            i = i + 1;
        }
    }
}

impl MutationMethod for SimpleMutation {
    closed spec fn max_step(&self) -> u64 {
        self.coefficient
    }

    fn mutate(&self, rng: &mut StdRng, chromosome: &mut Chromosome)
        ensures
            self.chance_numerator() == 0 ==> final(chromosome)@ == old(chromosome)@,
            self.max_step() == 0 ==> final(chromosome)@ == old(chromosome)@,
    {
        self.perturb(rng, chromosome);
    }
}

} // verus!
