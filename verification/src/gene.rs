//! Genes, chromosomes, and their point mutation.
use vstd::prelude::*;

use crate::ternary::{lcg_iter, lcg_next, ternary_of_seed, Ternary, LCG_MULTIPLIER};

verus! {

/// A single gene encoding one ternary trait.
#[derive(Clone, Debug, PartialEq, Eq)]
pub struct Gene {
    /// Gene name/identifier.
    pub name: String,
    /// Allele value.
    pub allele: Ternary,
    /// Dominance: higher values dominate in expression.
    pub dominance: u8,
}

impl Gene {
    pub fn new(name: &str, allele: Ternary, dominance: u8) -> (r: Self)
        ensures
            r.name@ == name@,
            r.allele == allele,
            r.dominance == dominance,
    {
        Gene { name: name.to_owned(), allele, dominance }
    }

    /// Mutate this gene to a random ternary value.
    pub fn mutate(&mut self, seed: &mut u64)
        ensures
            *final(seed) == lcg_next(*old(seed)),
            final(self).allele == ternary_of_seed(*final(seed)),
            final(self).name == old(self).name,
            final(self).dominance == old(self).dominance,
    {
        self.allele = Ternary::random(seed);
    }
}

/// A cluster of related genes (chromosome).
#[derive(Clone, Debug)]
pub struct Chromosome {
    /// Chromosome identifier.
    pub id: String,
    /// Genes on this chromosome.
    pub genes: Vec<Gene>,
}

/// The alleles of a gene sequence, in order.
pub open spec fn gene_alleles(genes: Seq<Gene>) -> Seq<Ternary> {
    genes.map_values(|g: Gene| g.allele)
}

/// The index of the first gene named `name`, if any gene has that name.
pub open spec fn gene_index(genes: Seq<Gene>, name: Seq<char>) -> Option<int>
    decreases genes.len(),
{
    if genes.len() == 0 {
        None
    } else if genes[0].name@ == name {
        Some(0)
    } else {
        match gene_index(genes.drop_first(), name) {
            Some(k) => Some(k + 1),
            None => None,
        }
    }
}

/// The effect of mutation on one allele: the generator steps once and, when the
/// new state modulo 1000 is below the rate, steps again and the allele is
/// replaced by the value drawn from that state.
pub open spec fn mutate_step(allele: Ternary, rate: u32, seed: u64) -> (Ternary, u64) {
    let s1 = lcg_next(seed);
    if s1 % 1000 < rate {
        let s2 = lcg_next(s1);
        (ternary_of_seed(s2), s2)
    } else {
        (allele, s1)
    }
}

/// Mutation of an allele sequence from first to last, threading the generator
/// state: the new alleles and the final state.
pub open spec fn mutate_alleles(alleles: Seq<Ternary>, rate: u32, seed: u64) -> (Seq<Ternary>, u64)
    decreases alleles.len(),
{
    if alleles.len() == 0 {
        (alleles, seed)
    } else {
        let (front, s) = mutate_alleles(alleles.drop_last(), rate, seed);
        let (a, s2) = mutate_step(alleles.last(), rate, s);
        (front.push(a), s2)
    }
}

/// Two chromosomes have the same identifier and the same genes up to alleles.
pub open spec fn same_layout(c: Chromosome, d: Chromosome) -> bool {
    &&& c.id@ == d.id@
    &&& c.genes@.len() == d.genes@.len()
    &&& forall|j: int|
        0 <= j < c.genes@.len() ==> #[trigger] c.genes@[j].name@ == d.genes@[j].name@
            && c.genes@[j].dominance == d.genes@[j].dominance
}

/// Mutating a sequence with one more allele at the end mutates the front first,
/// then the last allele from the state that the front left.
pub proof fn lemma_mutate_alleles_push(s: Seq<Ternary>, a: Ternary, rate: u32, seed: u64)
    ensures
        mutate_alleles(s.push(a), rate, seed) == ({
            let (front, s1) = mutate_alleles(s, rate, seed);
            let (b, s2) = mutate_step(a, rate, s1);
            (front.push(b), s2)
        }),
{
    assert(s.push(a).drop_last() =~= s);
}

/// Replaces the allele of gene `i`, keeping its name and dominance.
fn set_allele(genes: &mut Vec<Gene>, i: usize, a: Ternary)
    requires
        i < old(genes)@.len(),
    ensures
        final(genes)@ == old(genes)@.update(i as int, (Gene { allele: a, ..old(genes)@[i as int] })),
{
    genes[i].allele = a;
}

/// At rate zero no allele changes; the generator still steps once per gene.
pub proof fn lemma_mutate_rate_zero(alleles: Seq<Ternary>, seed: u64)
    ensures
        mutate_alleles(alleles, 0, seed).0 == alleles,
        mutate_alleles(alleles, 0, seed).1 == lcg_iter(seed, alleles.len()),
    decreases alleles.len(),
{
    if alleles.len() > 0 {
        lemma_mutate_rate_zero(alleles.drop_last(), seed);
        assert(alleles.drop_last().push(alleles.last()) =~= alleles);
    }
}

/// Two chromosomes hold the very same identifier and gene name strings, with
/// the same dominances.
pub open spec fn same_strings(c: Chromosome, d: Chromosome) -> bool {
    &&& c.id == d.id
    &&& c.genes@.len() == d.genes@.len()
    &&& forall|j: int|
        #![trigger c.genes@[j]]
        0 <= j < c.genes@.len() ==> c.genes@[j].name == d.genes@[j].name
            && c.genes@[j].dominance == d.genes@[j].dominance
}

/// Mutation treats each allele in turn: the generator steps once; when the new
/// state modulo 1000 is at least the rate (a per-thousand probability) the
/// allele stays and no further step is taken; below the rate the generator
/// steps again and the allele becomes the value drawn from that state. An
/// empty sequence is left with the state unchanged.
pub proof fn lemma_mutation_per_thousand(x: Seq<Ternary>, a: Ternary, rate: u32, seed: u64)
    ensures
        mutate_alleles(Seq::<Ternary>::empty(), rate, seed) == (Seq::<Ternary>::empty(), seed),
        lcg_next(seed) % 1000 >= rate ==> mutate_step(a, rate, seed) == (a, lcg_next(seed)),
        lcg_next(seed) % 1000 < rate ==> mutate_step(a, rate, seed) == (
            ternary_of_seed(lcg_next(lcg_next(seed))),
            lcg_next(lcg_next(seed)),
        ),
        mutate_alleles(x.push(a), rate, seed) == ({
            let (front, s1) = mutate_alleles(x, rate, seed);
            let t = lcg_next(s1);
            if t % 1000 < rate {
                (front.push(ternary_of_seed(lcg_next(t))), lcg_next(t))
            } else {
                (front.push(a), t)
            }
        }),
        mutate_alleles(x, rate, seed).0.len() == x.len(),
    decreases x.len(),
{
    lemma_mutate_alleles_push(x, a, rate, seed);
    if x.len() > 0 {
        lemma_mutation_per_thousand(x.drop_last(), x.last(), rate, seed);
    }
}

/// A rate of 1000 or more redraws every allele: each one is the value drawn
/// after two steps from the state the previous allele left.
pub proof fn lemma_mutate_full_rate(x: Seq<Ternary>, a: Ternary, rate: u32, seed: u64)
    requires
        rate >= 1000,
    ensures
        mutate_alleles(x.push(a), rate, seed).0.last() == ternary_of_seed(
            lcg_next(lcg_next(mutate_alleles(x, rate, seed).1)),
        ),
        mutate_alleles(x.push(a), rate, seed).1 == lcg_next(
            lcg_next(mutate_alleles(x, rate, seed).1),
        ),
{
    lemma_mutate_alleles_push(x, a, rate, seed);
}

impl Chromosome {
    pub fn new(id: &str, genes: Vec<Gene>) -> (r: Self)
        ensures
            r.id@ == id@,
            r.genes == genes,
    {
        Chromosome { id: id.to_owned(), genes }
    }

    /// Get gene by name: the first gene with that name.
    pub fn gene(&self, name: &str) -> (r: Option<&Gene>)
        ensures
            match gene_index(self.genes@, name@) {
                Some(k) => r == Some(&self.genes@[k]),
                None => r is None,
            },
    {
        let key = name.to_owned();
        let n = self.genes.len();
        assert(self.genes@.skip(0) =~= self.genes@);
        let mut i: usize = 0;
        while i < n
            invariant
                n == self.genes@.len(),
                i <= n,
                key@ == name@,
                gene_index(self.genes@, name@) == match gene_index(self.genes@.skip(i as int), name@) {
                    Some(k) => Some(k + i),
                    None => None,
                },
            decreases n - i,
        {
            assert(self.genes@.skip(i as int).drop_first() =~= self.genes@.skip(i + 1));
            if self.genes[i].name == key {
                return Some(&self.genes[i]);
            }
            i = i + 1;
        }
        None
    }

    /// Mutate genes at the given rate (probability 0..1000 per gene).
    pub fn mutate(&mut self, rate_per_thousand: u32, seed: &mut u64)
        ensures
            final(self).id == old(self).id,
            final(self).genes@.len() == old(self).genes@.len(),
            forall|j: int|
                0 <= j < old(self).genes@.len() ==> #[trigger] final(self).genes@[j].name
                    == old(self).genes@[j].name && final(self).genes@[j].dominance
                    == old(self).genes@[j].dominance,
            gene_alleles(final(self).genes@) == mutate_alleles(
                gene_alleles(old(self).genes@),
                rate_per_thousand,
                *old(seed),
            ).0,
            *final(seed) == mutate_alleles(
                gene_alleles(old(self).genes@),
                rate_per_thousand,
                *old(seed),
            ).1,
    {
        let ghost old_genes = self.genes@;
        let ghost seed0 = *seed;
        let n = self.genes.len();
        let mut i: usize = 0;
        while i < n
            invariant
                n == old_genes.len(),
                i <= n,
                self.id == old(self).id,
                old_genes == old(self).genes@,
                self.genes@.len() == n,
                forall|j: int|
                    0 <= j < n ==> #[trigger] self.genes@[j].name == old_genes[j].name
                        && self.genes@[j].dominance == old_genes[j].dominance,
                forall|j: int| i <= j < n ==> #[trigger] self.genes@[j] == old_genes[j],
                gene_alleles(self.genes@).take(i as int) == mutate_alleles(
                    gene_alleles(old_genes).take(i as int),
                    rate_per_thousand,
                    seed0,
                ).0,
                *seed == mutate_alleles(
                    gene_alleles(old_genes).take(i as int),
                    rate_per_thousand,
                    seed0,
                ).1,
            decreases n - i,
        {
            let ghost before = self.genes@;
            proof {
                lemma_mutate_alleles_push(
                    gene_alleles(old_genes).take(i as int),
                    old_genes[i as int].allele,
                    rate_per_thousand,
                    seed0,
                );
                assert(gene_alleles(old_genes).take(i + 1) =~= gene_alleles(old_genes).take(
                    i as int,
                ).push(old_genes[i as int].allele));
            }
            let s1 = seed.wrapping_mul(LCG_MULTIPLIER).wrapping_add(1);
            *seed = s1;
            if ((s1 % 1000) as u32) < rate_per_thousand {
                let a = Ternary::random(seed);
                set_allele(&mut self.genes, i, a);
            }
            assert(self.genes@[i as int].allele == mutate_step(
                old_genes[i as int].allele,
                rate_per_thousand,
                mutate_alleles(gene_alleles(old_genes).take(i as int), rate_per_thousand, seed0).1,
            ).0);
            assert(gene_alleles(self.genes@).take(i + 1) =~= gene_alleles(before).take(
                i as int,
            ).push(self.genes@[i as int].allele));
            i = i + 1;
        }
        assert(gene_alleles(self.genes@).take(n as int) =~= gene_alleles(self.genes@));
        assert(gene_alleles(old_genes).take(n as int) =~= gene_alleles(old_genes));
    }

    /// Number of genes.
    pub fn len(&self) -> (r: usize)
        ensures
            r == self.genes@.len(),
    {
        self.genes.len()
    }

    pub fn is_empty(&self) -> (r: bool)
        ensures
            r == (self.genes@.len() == 0),
    {
        self.genes.len() == 0
    }
}

} // verus!
