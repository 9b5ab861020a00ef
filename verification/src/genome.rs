//! Whole genomes: their flat view, gene count, mutation and fitness.
use vstd::prelude::*;

use crate::gene::{
    gene_alleles, lemma_mutate_alleles_push, mutate_alleles, same_layout, same_strings, Chromosome,
    Gene,
};
use crate::ternary::Ternary;

verus! {

/// A complete genome (ternary DNA) consisting of multiple chromosomes.
#[derive(Clone, Debug)]
pub struct Genome {
    pub chromosomes: Vec<Chromosome>,
}

/// All genes of a chromosome sequence, chromosome after chromosome.
pub open spec fn flat_genes(chroms: Seq<Chromosome>) -> Seq<Gene>
    decreases chroms.len(),
{
    if chroms.len() == 0 {
        Seq::empty()
    } else {
        flat_genes(chroms.drop_last()) + chroms.last().genes@
    }
}

/// The sum of the gene counts of a chromosome sequence.
pub open spec fn gene_total(chroms: Seq<Chromosome>) -> nat
    decreases chroms.len(),
{
    if chroms.len() == 0 {
        0
    } else {
        gene_total(chroms.drop_last()) + chroms.last().genes@.len()
    }
}

/// The sum of the integer values of an allele sequence.
pub open spec fn allele_sum(s: Seq<Ternary>) -> int
    decreases s.len(),
{
    if s.len() == 0 {
        0
    } else {
        allele_sum(s.drop_last()) + s.last().value()
    }
}

/// Every prefix sum of the allele values fits in an `i32`.
pub open spec fn prefix_sums_fit_i32(s: Seq<Ternary>) -> bool {
    forall|k: int| 0 <= k <= s.len() ==> i32::MIN <= #[trigger] allele_sum(s.take(k)) <= i32::MAX
}

/// Two genomes have the same chromosomes, identifiers, gene names and
/// dominances, in the same order; only alleles may differ.
pub open spec fn same_shape(g: Genome, h: Genome) -> bool {
    &&& g.chromosomes@.len() == h.chromosomes@.len()
    &&& forall|i: int|
        0 <= i < g.chromosomes@.len() ==> #[trigger] same_layout(
            g.chromosomes@[i],
            h.chromosomes@[i],
        )
}

impl Genome {
    /// The alleles of all genes, chromosome after chromosome.
    pub open spec fn spec_alleles(self) -> Seq<Ternary> {
        gene_alleles(flat_genes(self.chromosomes@))
    }

    /// Total number of genes over all chromosomes.
    pub open spec fn spec_gene_count(self) -> nat {
        gene_total(self.chromosomes@)
    }

    pub fn new(chromosomes: Vec<Chromosome>) -> (r: Self)
        ensures
            r.chromosomes == chromosomes,
    {
        Genome { chromosomes }
    }

    /// Total gene count across all chromosomes.
    pub fn gene_count(&self) -> (r: usize)
        requires
            self.spec_gene_count() <= usize::MAX,
        ensures
            r == self.spec_gene_count(),
    {
        let n = self.chromosomes.len();
        let mut total: usize = 0;
        let mut i: usize = 0;
        while i < n
            invariant
                n == self.chromosomes@.len(),
                i <= n,
                gene_total(self.chromosomes@) <= usize::MAX,
                total == gene_total(self.chromosomes@.take(i as int)),
            decreases n - i,
        {
            proof {
                assert(self.chromosomes@.take(i + 1).drop_last() =~= self.chromosomes@.take(
                    i as int,
                ));
                lemma_gene_total_prefix(self.chromosomes@, i + 1);
            }
            total = total + self.chromosomes[i].len();
            i = i + 1;
        }
        assert(self.chromosomes@.take(n as int) =~= self.chromosomes@);
        total
    }

    /// Mutate all chromosomes, in order, with one generator state.
    pub fn mutate(&mut self, rate_per_thousand: u32, seed: &mut u64)
        ensures
            same_shape(*final(self), *old(self)),
            forall|i: int|
                0 <= i < old(self).chromosomes@.len() ==> #[trigger] same_strings(
                    final(self).chromosomes@[i],
                    old(self).chromosomes@[i],
                ),
            final(self).spec_alleles() == mutate_alleles(
                old(self).spec_alleles(),
                rate_per_thousand,
                *old(seed),
            ).0,
            *final(seed) == mutate_alleles(
                old(self).spec_alleles(),
                rate_per_thousand,
                *old(seed),
            ).1,
    {
        let ghost old_chroms = self.chromosomes@;
        let ghost seed0 = *seed;
        let n = self.chromosomes.len();
        let mut i: usize = 0;
        assert(self.chromosomes@.take(0) =~= Seq::<Chromosome>::empty());
        while i < n
            invariant
                n == old_chroms.len(),
                i <= n,
                old_chroms == old(self).chromosomes@,
                self.chromosomes@.len() == n,
                forall|j: int|
                    0 <= j < i ==> #[trigger] same_layout(self.chromosomes@[j], old_chroms[j]),
                forall|j: int|
                    0 <= j < i ==> #[trigger] same_strings(self.chromosomes@[j], old_chroms[j]),
                forall|j: int| i <= j < n ==> #[trigger] self.chromosomes@[j] == old_chroms[j],
                gene_alleles(flat_genes(self.chromosomes@.take(i as int))) == mutate_alleles(
                    gene_alleles(flat_genes(old_chroms.take(i as int))),
                    rate_per_thousand,
                    seed0,
                ).0,
                *seed == mutate_alleles(
                    gene_alleles(flat_genes(old_chroms.take(i as int))),
                    rate_per_thousand,
                    seed0,
                ).1,
            decreases n - i,
        {
            let ghost before = self.chromosomes@;
            mutate_chromosome_at(&mut self.chromosomes, i, rate_per_thousand, seed);
            proof {
                let c_old = old_chroms[i as int];
                let c_new = self.chromosomes@[i as int];
                assert(self.chromosomes@.take(i + 1).drop_last() =~= before.take(i as int));
                assert(old_chroms.take(i + 1).drop_last() =~= old_chroms.take(i as int));
                assert(before[i as int] == c_old);
                lemma_gene_alleles_concat(flat_genes(before.take(i as int)), c_new.genes@);
                lemma_gene_alleles_concat(flat_genes(old_chroms.take(i as int)), c_old.genes@);
                lemma_mutate_alleles_concat(
                    gene_alleles(flat_genes(old_chroms.take(i as int))),
                    gene_alleles(c_old.genes@),
                    rate_per_thousand,
                    seed0,
                );
                assert(same_layout(c_new, c_old));
                assert(same_strings(c_new, c_old));
            }
            i = i + 1;
        }
        assert(self.chromosomes@.take(n as int) =~= self.chromosomes@);
        assert(old_chroms.take(n as int) =~= old_chroms);
    }

    /// Flat list of all gene alleles.
    pub fn alleles(&self) -> (r: Vec<Ternary>)
        ensures
            r@ == self.spec_alleles(),
    {
        let mut out: Vec<Ternary> = Vec::new();
        let n = self.chromosomes.len();
        let mut i: usize = 0;
        assert(self.chromosomes@.take(0) =~= Seq::<Chromosome>::empty());
        assert(gene_alleles(Seq::<Gene>::empty()) =~= Seq::<Ternary>::empty());
        while i < n
            invariant
                n == self.chromosomes@.len(),
                i <= n,
                out@ == gene_alleles(flat_genes(self.chromosomes@.take(i as int))),
            decreases n - i,
        {
            let c = &self.chromosomes[i];
            let m = c.genes.len();
            let mut j: usize = 0;
            let ghost base = out@;
            assert(c.genes@.take(0) =~= Seq::<Gene>::empty());
            assert(base + gene_alleles(c.genes@.take(0)) =~= base);
            while j < m
                invariant
                    m == c.genes@.len(),
                    j <= m,
                    out@ == base + gene_alleles(c.genes@.take(j as int)),
                decreases m - j,
            {
                out.push(c.genes[j].allele);
                assert(gene_alleles(c.genes@.take(j + 1)) =~= gene_alleles(
                    c.genes@.take(j as int),
                ).push(c.genes@[j as int].allele));
                assert(out@ =~= base + gene_alleles(c.genes@.take(j + 1)));
                j = j + 1;
            }
            proof {
                assert(self.chromosomes@.take(i + 1).drop_last() =~= self.chromosomes@.take(
                    i as int,
                ));
                assert(c.genes@.take(m as int) =~= c.genes@);
                lemma_gene_alleles_concat(
                    flat_genes(self.chromosomes@.take(i as int)),
                    c.genes@,
                );
            }
            i = i + 1;
        }
        assert(self.chromosomes@.take(n as int) =~= self.chromosomes@);
        out
    }

    /// Fitness: sum of allele values (Pos=1, Zero=0, Neg=-1).
    pub fn fitness(&self) -> (r: i32)
        requires
            prefix_sums_fit_i32(self.spec_alleles()),
        ensures
            r == allele_sum(self.spec_alleles()),
    {
        let al = self.alleles();
        let n = al.len();
        let mut sum: i32 = 0;
        let mut i: usize = 0;
        assert(al@.take(0) =~= Seq::<Ternary>::empty());
        while i < n
            invariant
                n == al@.len(),
                i <= n,
                prefix_sums_fit_i32(al@),
                sum == allele_sum(al@.take(i as int)),
            decreases n - i,
        {
            assert(al@.take(i + 1).drop_last() =~= al@.take(i as int));
            assert(i32::MIN <= allele_sum(al@.take(i + 1)) <= i32::MAX);
            let v = al[i].to_i8();
            sum = sum + v as i32;
            i = i + 1;
        }
        assert(al@.take(n as int) =~= al@);
        sum
    }
}

/// Mutates chromosome `i` of a chromosome vector, leaving the others as they are.
fn mutate_chromosome_at(chroms: &mut Vec<Chromosome>, i: usize, rate: u32, seed: &mut u64)
    requires
        i < old(chroms)@.len(),
    ensures
        final(chroms)@.len() == old(chroms)@.len(),
        forall|j: int|
            0 <= j < old(chroms)@.len() && j != i ==> #[trigger] final(chroms)@[j] == old(
                chroms,
            )@[j],
        same_layout(final(chroms)@[i as int], old(chroms)@[i as int]),
        same_strings(final(chroms)@[i as int], old(chroms)@[i as int]),
        gene_alleles(final(chroms)@[i as int].genes@) == mutate_alleles(
            gene_alleles(old(chroms)@[i as int].genes@),
            rate,
            *old(seed),
        ).0,
        *final(seed) == mutate_alleles(
            gene_alleles(old(chroms)@[i as int].genes@),
            rate,
            *old(seed),
        ).1,
{
    chroms[i].mutate(rate, seed);
}

/// The alleles of two gene sequences put together are the alleles of the first
/// followed by those of the second.
pub proof fn lemma_gene_alleles_concat(x: Seq<Gene>, y: Seq<Gene>)
    ensures
        gene_alleles(x + y) == gene_alleles(x) + gene_alleles(y),
{
    assert(gene_alleles(x + y) =~= gene_alleles(x) + gene_alleles(y));
}

/// Mutating a concatenation mutates the first part, then the second part from
/// the state that the first part left.
pub proof fn lemma_mutate_alleles_concat(x: Seq<Ternary>, y: Seq<Ternary>, rate: u32, seed: u64)
    ensures
        mutate_alleles(x + y, rate, seed) == ({
            let (mx, s1) = mutate_alleles(x, rate, seed);
            let (my, s2) = mutate_alleles(y, rate, s1);
            (mx + my, s2)
        }),
    decreases y.len(),
{
    if y.len() == 0 {
        assert(x + y =~= x);
        let (mx, s1) = mutate_alleles(x, rate, seed);
        assert(mx + Seq::<Ternary>::empty() =~= mx);
    } else {
        let y0 = y.drop_last();
        lemma_mutate_alleles_concat(x, y0, rate, seed);
        assert(x + y =~= (x + y0).push(y.last()));
        assert(y =~= y0.push(y.last()));
        lemma_mutate_alleles_push(x + y0, y.last(), rate, seed);
        lemma_mutate_alleles_push(y0, y.last(), rate, mutate_alleles(x, rate, seed).1);
        let (mx, s1) = mutate_alleles(x, rate, seed);
        let (my0, s2) = mutate_alleles(y0, rate, s1);
        let (b, s3) = crate::gene::mutate_step(y.last(), rate, s2);
        assert((mx + my0).push(b) =~= mx + my0.push(b));
    }
}

/// The flat genes of a concatenation are those of each part, in order.
pub proof fn lemma_flat_genes_concat(x: Seq<Chromosome>, y: Seq<Chromosome>)
    ensures
        flat_genes(x + y) == flat_genes(x) + flat_genes(y),
    decreases y.len(),
{
    if y.len() == 0 {
        assert(x + y =~= x);
        assert(flat_genes(x) + flat_genes(y) =~= flat_genes(x));
    } else {
        let y0 = y.drop_last();
        lemma_flat_genes_concat(x, y0);
        assert((x + y).drop_last() =~= x + y0);
        assert(flat_genes(x) + flat_genes(y0) + y.last().genes@ =~= flat_genes(x) + (flat_genes(
            y0,
        ) + y.last().genes@));
    }
}

/// The gene total of a prefix is at most that of the whole sequence.
pub proof fn lemma_gene_total_prefix(chroms: Seq<Chromosome>, i: int)
    requires
        0 <= i <= chroms.len(),
    ensures
        gene_total(chroms.take(i)) <= gene_total(chroms),
    decreases chroms.len(),
{
    if i < chroms.len() {
        assert(chroms.drop_last().take(i) =~= chroms.take(i));
        lemma_gene_total_prefix(chroms.drop_last(), i);
    } else {
        assert(chroms.take(i) =~= chroms);
    }
}

/// The gene total is the number of flat genes.
pub proof fn lemma_gene_total_is_flat_len(chroms: Seq<Chromosome>)
    ensures
        gene_total(chroms) == flat_genes(chroms).len(),
    decreases chroms.len(),
{
    if chroms.len() > 0 {
        lemma_gene_total_is_flat_len(chroms.drop_last());
    }
}

/// The gene count of a genome is the number of its alleles.
pub proof fn lemma_gene_count_is_allele_count(g: Genome)
    ensures
        g.spec_gene_count() == g.spec_alleles().len(),
{
    lemma_gene_total_is_flat_len(g.chromosomes@);
}

/// The fitness sum is additive: nothing for no alleles, the value of an
/// appended allele added on, and the sums of two parts added together.
pub proof fn lemma_allele_sum_additive(x: Seq<Ternary>, y: Seq<Ternary>, t: Ternary)
    ensures
        allele_sum(Seq::<Ternary>::empty()) == 0,
        allele_sum(x.push(t)) == allele_sum(x) + t.value(),
        allele_sum(seq![t]) == t.value(),
        allele_sum(x + y) == allele_sum(x) + allele_sum(y),
    decreases y.len(),
{
    assert(x.push(t).drop_last() =~= x);
    assert(seq![t].drop_last() =~= Seq::<Ternary>::empty());
    if y.len() == 0 {
        assert(x + y =~= x);
    } else {
        lemma_allele_sum_additive(x, y.drop_last(), t);
        assert((x + y).drop_last() =~= x + y.drop_last());
    }
}

/// The fitness sum counts every allele: it is the number of Pos alleles minus
/// the number of Neg alleles, and lies between minus and plus the length.
pub proof fn lemma_allele_sum_counts(s: Seq<Ternary>)
    ensures
        allele_sum(s) == s.filter(|t: Ternary| t == Ternary::Pos).len() - s.filter(
            |t: Ternary| t == Ternary::Neg,
        ).len(),
        -(s.len() as int) <= allele_sum(s) <= s.len(),
    decreases s.len(),
{
    reveal(Seq::filter);
    if s.len() > 0 {
        lemma_allele_sum_counts(s.drop_last());
    }
}

/// Genomes of the same shape have, chromosome by chromosome and gene by gene,
/// the same identifiers, gene names and dominances, and so the same number of
/// genes; a single chromosome's flat genes are its own genes.
pub proof fn lemma_same_shape_fields(g: Genome, h: Genome, c: Chromosome)
    ensures
        same_shape(g, h) ==> forall|i: int, j: int|
            #![trigger g.chromosomes@[i].genes@[j]]
            0 <= i < g.chromosomes@.len() && 0 <= j < g.chromosomes@[i].genes@.len() ==> {
                &&& g.chromosomes@[i].id@ == h.chromosomes@[i].id@
                &&& g.chromosomes@[i].genes@.len() == h.chromosomes@[i].genes@.len()
                &&& g.chromosomes@[i].genes@[j].name@ == h.chromosomes@[i].genes@[j].name@
                &&& g.chromosomes@[i].genes@[j].dominance == h.chromosomes@[i].genes@[j].dominance
            },
        same_shape(g, h) ==> g.spec_gene_count() == h.spec_gene_count(),
        same_shape(g, h) ==> g.spec_alleles().len() == h.spec_alleles().len(),
        flat_genes(seq![c]) == c.genes@,
{
    assert(seq![c].drop_last() =~= Seq::<Chromosome>::empty());
    assert(seq![c].last() == c);
    assert(flat_genes(Seq::<Chromosome>::empty()) == Seq::<Gene>::empty());
    assert(Seq::<Gene>::empty() + c.genes@ =~= c.genes@);
    if same_shape(g, h) {
        assert forall|i: int, j: int|
            #![trigger g.chromosomes@[i].genes@[j]]
            0 <= i < g.chromosomes@.len() && 0 <= j < g.chromosomes@[i].genes@.len() implies {
                &&& g.chromosomes@[i].id@ == h.chromosomes@[i].id@
                &&& g.chromosomes@[i].genes@.len() == h.chromosomes@[i].genes@.len()
                &&& g.chromosomes@[i].genes@[j].name@ == h.chromosomes@[i].genes@[j].name@
                &&& g.chromosomes@[i].genes@[j].dominance == h.chromosomes@[i].genes@[j].dominance
            } by {
            assert(same_layout(g.chromosomes@[i], h.chromosomes@[i]));
            assert(g.chromosomes@[i].genes@[j].name@ == h.chromosomes@[i].genes@[j].name@);
        }
        lemma_same_shape_total(g.chromosomes@, h.chromosomes@);
        lemma_gene_count_is_allele_count(g);
        lemma_gene_count_is_allele_count(h);
    }
}

/// Chromosome sequences of pairwise equal gene counts have the same gene total.
proof fn lemma_same_shape_total(x: Seq<Chromosome>, y: Seq<Chromosome>)
    requires
        x.len() == y.len(),
        forall|i: int| 0 <= i < x.len() ==> #[trigger] same_layout(x[i], y[i]),
    ensures
        gene_total(x) == gene_total(y),
    decreases x.len(),
{
    if x.len() > 0 {
        assert(same_layout(x[x.len() - 1], y[y.len() - 1]));
        assert forall|i: int| 0 <= i < x.drop_last().len() implies #[trigger] same_layout(
            x.drop_last()[i],
            y.drop_last()[i],
        ) by {
            assert(same_layout(x[i], y[i]));
        }
        lemma_same_shape_total(x.drop_last(), y.drop_last());
    }
}

} // verus!
