use genetic::simple_methods::{cross_with, pick_weighted, shift_gene, sum_weights};
use genetic::{Chromosome, GaError, Individual, SelectionMethod, SimpleCrossover, SimpleMutation, SimpleSelection};
use rand::rngs::StdRng;
use rand::SeedableRng;

#[derive(Debug)]
struct Scored {
    chromosome: Chromosome,
}

impl Individual for Scored {
    fn create(chromosome: Chromosome) -> Self {
        Scored { chromosome }
    }
    fn chromosome(&self) -> &Chromosome {
        &self.chromosome
    }
    fn fitness(&self) -> u64 {
        self.chromosome.genes[0] as u64
    }
}

fn scored(fitness: i64) -> Scored {
    Scored::create(Chromosome::from_genes(vec![fitness]))
}

#[test]
fn pick_weighted_never_draws_a_zero_weight() {
    let mut rng = StdRng::seed_from_u64(4);
    let weights: Vec<u64> = vec![1, 0, 3, 0];
    let mut counts = [0usize; 4];
    for _ in 0..4000 {
        counts[pick_weighted(&mut rng, &weights)] += 1;
    }
    assert_eq!(counts[1], 0);
    assert_eq!(counts[3], 0);
    assert!(counts[0] > 0);
    assert!(counts[2] > 2 * counts[0]);
}

#[test]
fn pick_weighted_handles_weights_whose_sum_exceeds_u64() {
    let mut rng = StdRng::seed_from_u64(4);
    let weights: Vec<u64> = vec![u64::MAX, 0, u64::MAX];
    for _ in 0..100 {
        assert_ne!(pick_weighted(&mut rng, &weights), 1);
    }
}

#[test]
fn sum_weights_does_not_overflow() {
    let weights: Vec<u64> = vec![u64::MAX, u64::MAX, 1];
    assert_eq!(sum_weights(&weights), 2 * (u64::MAX as u128) + 1);
    assert_eq!(sum_weights(&Vec::new()), 0);
}

#[test]
fn pick_weighted_skips_zero_weights() {
    let mut rng = StdRng::seed_from_u64(7);
    let weights: Vec<u64> = vec![0, 5, 0, 0];
    for _ in 0..100 {
        assert_eq!(pick_weighted(&mut rng, &weights), 1);
    }
}

#[test]
fn pick_weighted_with_all_zero_weights_stays_in_range() {
    let mut rng = StdRng::seed_from_u64(7);
    let weights: Vec<u64> = vec![0, 0, 0];
    let mut seen = [false; 3];
    for _ in 0..200 {
        let i = pick_weighted(&mut rng, &weights);
        assert!(i < 3);
        seen[i] = true;
    }
    assert!(seen.iter().all(|&s| s));
}

#[test]
fn selection_on_empty_population_fails() {
    let mut rng = StdRng::seed_from_u64(1);
    let population: Vec<Scored> = Vec::new();
    assert_eq!(SimpleSelection.select_index(&mut rng, &population), Err(GaError::EmptyPopulation));
    assert!(matches!(SimpleSelection.select(&mut rng, &population), Err(GaError::EmptyPopulation)));
}

#[test]
fn selection_picks_the_only_fit_member() {
    let mut rng = StdRng::seed_from_u64(3);
    let population = vec![scored(0), scored(0), scored(4), scored(0)];
    for _ in 0..50 {
        assert_eq!(SimpleSelection.select_index(&mut rng, &population), Ok(2));
        let picked = SimpleSelection.select(&mut rng, &population).unwrap();
        assert_eq!(picked.chromosome.genes, vec![4]);
    }
}

#[test]
fn selection_favours_fitter_members() {
    let mut rng = StdRng::seed_from_u64(11);
    let population = vec![scored(1), scored(9)];
    let mut counts = [0usize; 2];
    for _ in 0..2000 {
        counts[SimpleSelection.select_index(&mut rng, &population).unwrap()] += 1;
    }
    assert!(counts[1] > 4 * counts[0]);
}

#[test]
fn cross_with_follows_the_choices() {
    let a = Chromosome::from_genes(vec![1, 2, 3, 4]);
    let b = Chromosome::from_genes(vec![5, 6, 7, 8]);
    let child = cross_with(&a, &b, &vec![true, false, false, true]);
    assert_eq!(child.genes, vec![1, 6, 7, 4]);
}

#[test]
fn uniform_crossover_takes_each_gene_from_a_parent() {
    let mut rng = StdRng::seed_from_u64(5);
    let a = Chromosome::from_genes((0..64).collect());
    let b = Chromosome::from_genes((100..164).collect());
    let child = SimpleCrossover.uniform(&mut rng, &a, &b).unwrap();
    assert_eq!(child.len(), 64);
    for i in 0..64 {
        assert!(child[i] == a[i] || child[i] == b[i]);
    }
    assert!(child.iter().zip(a.iter()).any(|(c, x)| c == x));
    assert!(child.iter().zip(b.iter()).any(|(c, x)| c == x));
}

#[test]
fn crossover_of_unequal_lengths_fails() {
    let mut rng = StdRng::seed_from_u64(5);
    let a = Chromosome::from_genes(vec![1, 2, 3]);
    let b = Chromosome::from_genes(vec![1, 2]);
    assert!(matches!(SimpleCrossover.uniform(&mut rng, &a, &b), Err(GaError::LengthMismatch)));
}

#[test]
fn mutation_chance_above_one_is_refused() {
    assert!(matches!(SimpleMutation::new(3, 2, 5), Err(GaError::InvalidConfiguration)));
    assert!(matches!(SimpleMutation::new(0, 0, 5), Err(GaError::InvalidConfiguration)));
    assert!(SimpleMutation::new(1, 1, 5).is_ok());
    assert!(SimpleMutation::new(0, 1, 5).is_ok());
}

#[test]
fn mutation_with_zero_chance_changes_nothing() {
    let mut rng = StdRng::seed_from_u64(9);
    let mutation = SimpleMutation::new(0, 1, 1000).unwrap();
    let mut chromosome = Chromosome::from_genes(vec![4, -2, 0, 17]);
    mutation.perturb(&mut rng, &mut chromosome);
    assert_eq!(chromosome.genes, vec![4, -2, 0, 17]);
}

#[test]
fn mutation_with_full_chance_stays_within_the_coefficient() {
    let mut rng = StdRng::seed_from_u64(9);
    let mutation = SimpleMutation::new(1, 1, 5).unwrap();
    let before: Vec<i64> = (0..100).collect();
    let mut chromosome = Chromosome::from_genes(before.clone());
    mutation.perturb(&mut rng, &mut chromosome);
    assert_eq!(chromosome.len(), 100);
    for i in 0..100 {
        assert!((chromosome[i] - before[i]).abs() <= 5);
    }
    assert_ne!(chromosome.genes, before);
}

#[test]
fn shift_gene_moves_and_clamps() {
    assert_eq!(shift_gene(10, true, false, 4), 10);
    assert_eq!(shift_gene(10, true, true, 4), 6);
    assert_eq!(shift_gene(10, false, true, 4), 14);
    assert_eq!(shift_gene(i64::MAX - 1, false, true, 4), i64::MAX);
    assert_eq!(shift_gene(i64::MIN + 1, true, true, u64::MAX), i64::MIN);
}

#[test]
fn mutation_with_zero_coefficient_changes_nothing() {
    let mut rng = StdRng::seed_from_u64(13);
    let mutation = SimpleMutation::new(1, 1, 0).unwrap();
    let mut chromosome = Chromosome::from_genes(vec![4, -2, 0, 17]);
    mutation.perturb(&mut rng, &mut chromosome);
    assert_eq!(chromosome.genes, vec![4, -2, 0, 17]);
}
