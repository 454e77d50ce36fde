//! The gene sequence: an owned, indexable run of integer genes.
use vstd::prelude::*;
use crate::random::{thread_draw_any, thread_draw_between};

verus! {

/// One individual's encoded traits, as an ordered sequence of genes.
#[derive(Debug)]
pub struct Chromosome {
    pub genes: Vec<i64>,
}

impl View for Chromosome {
    type V = Seq<i64>;

    open spec fn view(&self) -> Seq<i64> {
        self.genes@
    }
}

impl std::ops::Deref for Chromosome {
    type Target = Vec<i64>;

    fn deref(&self) -> (r: &Vec<i64>)
        ensures
            r@ == self@,
    {
        &self.genes
    }
}

impl std::ops::DerefMut for Chromosome {
    fn deref_mut(&mut self) -> (r: &mut Vec<i64>)
        ensures
            r@ == old(self)@,
            final(r)@ == final(self)@,
    {
        &mut self.genes
    }
}

impl Chromosome {
    /// Wraps the given genes, in order.
    pub fn from_genes(genes: Vec<i64>) -> (r: Self)
        ensures
            r@ == genes@,
    {
        Chromosome { genes }
    }

    /// A sequence of `length` genes, each drawn on its own from the thread's
    /// generator: uniformly from `lo..=hi` where a range is given, else from
    /// every `i64`.
    pub fn new(length: usize, range: Option<(i64, i64)>) -> (r: Self)
        requires
            length > 0 ==> (range matches Some((lo, hi)) ==> lo <= hi),
        ensures
            r@.len() == length,
            range matches Some((lo, hi)) ==> forall|i: int|
                0 <= i < length ==> lo <= #[trigger] r@[i] <= hi,
    {
        let mut genes: Vec<i64> = Vec::new();
        let mut k: usize = 0;
        while k < length
            invariant
                k <= length,
                genes@.len() == k,
                length > 0 ==> (range matches Some((lo, hi)) ==> lo <= hi),
                range matches Some((lo, hi)) ==> forall|i: int|
                    0 <= i < k ==> lo <= #[trigger] genes@[i] <= hi,
            decreases length - k,
        {
            let gene: i64 = match range {
                Some((lo, hi)) => thread_draw_between(lo, hi),
                None => thread_draw_any(),
            };
            genes.push(gene);
            k = k + 1;
        }
        Chromosome { genes }
    }

    /// How many genes the sequence holds.
    pub fn len(&self) -> (r: usize)
        ensures
            r == self@.len(),
    {
        self.genes.len()
    }
}

} // verus!
