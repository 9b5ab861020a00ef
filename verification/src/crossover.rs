//! Crossover of two genomes: single-point and uniform.
use vstd::prelude::*;

use crate::gene::{gene_alleles, same_layout, Chromosome, Gene};
use crate::genome::{allele_sum, flat_genes, lemma_flat_genes_concat, same_shape, Genome};
use crate::ternary::{lcg_iter, Ternary, LCG_MULTIPLIER};

verus! {

/// Crossover (sexual reproduction) of two genomes.
#[derive(Clone, Debug)]
pub struct Crossover;

/// The allele at flat position `k`, or Zero past the end.
pub open spec fn allele_or_zero(alleles: Seq<Ternary>, k: int) -> Ternary {
    if 0 <= k < alleles.len() {
        alleles[k]
    } else {
        Ternary::Zero
    }
}

/// The first `n` alleles, padded with Zero where the sequence is shorter.
pub open spec fn padded(alleles: Seq<Ternary>, n: nat) -> Seq<Ternary> {
    Seq::new(n, |k: int| allele_or_zero(alleles, k))
}

/// The point of a single-point crossover: the requested one, but at most the
/// length of either parent.
pub open spec fn split_point(point: usize, la: nat, lb: nat) -> int {
    if point <= la && point <= lb {
        point as int
    } else if la <= lb {
        la as int
    } else {
        lb as int
    }
}

/// The flat alleles of single-point crossover: each child takes its own parent's
/// head up to the point and the other parent's tail after it.
pub open spec fn single_point_children(fa: Seq<Ternary>, fb: Seq<Ternary>, point: usize) -> (
    Seq<Ternary>,
    Seq<Ternary>,
) {
    let p = split_point(point, fa.len(), fb.len());
    (fa.take(p) + fb.skip(p), fb.take(p) + fa.skip(p))
}

/// The flat alleles of uniform crossover from generator state `seed`: at
/// position `i` the state after `i + 1` steps decides; when it is even the
/// first child takes `fa[i]` and the second `fb[i]`, otherwise the other way
/// round. Both children have the length of the shorter parent.
pub open spec fn uniform_children(fa: Seq<Ternary>, fb: Seq<Ternary>, seed: u64) -> (
    Seq<Ternary>,
    Seq<Ternary>,
) {
    let n: nat = if fa.len() <= fb.len() {
        fa.len()
    } else {
        fb.len()
    };
    (
        Seq::new(
            n,
            |i: int|
                if lcg_iter(seed, (i + 1) as nat) % 2 == 0 {
                    fa[i]
                } else {
                    fb[i]
                },
        ),
        Seq::new(
            n,
            |i: int|
                if lcg_iter(seed, (i + 1) as nat) % 2 == 0 {
                    fb[i]
                } else {
                    fa[i]
                },
        ),
    )
}

/// The head of `x` up to `p` followed by the tail of `y` from `p`.
fn splice(x: &Vec<Ternary>, y: &Vec<Ternary>, p: usize) -> (r: Vec<Ternary>)
    requires
        p <= x@.len(),
        p <= y@.len(),
    ensures
        r@ == x@.take(p as int) + y@.skip(p as int),
{
    let mut out: Vec<Ternary> = Vec::new();
    let mut k: usize = 0;
    while k < p
        invariant
            p <= x@.len(),
            k <= p,
            out@ == x@.take(k as int),
        decreases p - k,
    {
        out.push(x[k]);
        assert(out@ =~= x@.take(k + 1));
        k = k + 1;
    }
    let n = y.len();
    while k < n
        invariant
            p <= k <= n,
            n == y@.len(),
            out@ == x@.take(p as int) + y@.subrange(p as int, k as int),
        decreases n - k,
    {
        out.push(y[k]);
        assert(out@ =~= x@.take(p as int) + y@.subrange(p as int, k + 1));
        k = k + 1;
    }
    assert(y@.subrange(p as int, n as int) =~= y@.skip(p as int));
    out
}

impl Crossover {
    /// Single-point crossover: split at a point and swap tails.
    pub fn single_point(a: &Genome, b: &Genome, point: usize) -> (r: (Genome, Genome))
        ensures
            same_shape(r.0, *a),
            same_shape(r.1, *b),
            r.0.spec_alleles() == padded(
                single_point_children(a.spec_alleles(), b.spec_alleles(), point).0,
                a.spec_alleles().len(),
            ),
            r.1.spec_alleles() == padded(
                single_point_children(a.spec_alleles(), b.spec_alleles(), point).1,
                b.spec_alleles().len(),
            ),
    {
        let a_flat = a.alleles();
        let b_flat = b.alleles();
        let mut p = point;
        if p > a_flat.len() {
            p = a_flat.len();
        }
        if p > b_flat.len() {
            p = b_flat.len();
        }
        assert(p == split_point(point, a_flat@.len(), b_flat@.len()));
        let child1 = splice(&a_flat, &b_flat, p);
        let child2 = splice(&b_flat, &a_flat, p);
        (Self::rebuild(a, child1), Self::rebuild(b, child2))
    }

    /// Uniform crossover: each gene randomly from parent a or b.
    pub fn uniform(a: &Genome, b: &Genome, seed: &mut u64) -> (r: (Genome, Genome))
        ensures
            same_shape(r.0, *a),
            same_shape(r.1, *b),
            r.0.spec_alleles() == padded(
                uniform_children(a.spec_alleles(), b.spec_alleles(), *old(seed)).0,
                a.spec_alleles().len(),
            ),
            r.1.spec_alleles() == padded(
                uniform_children(a.spec_alleles(), b.spec_alleles(), *old(seed)).1,
                b.spec_alleles().len(),
            ),
            *final(seed) == lcg_iter(
                *old(seed),
                uniform_children(a.spec_alleles(), b.spec_alleles(), *old(seed)).0.len(),
            ),
    {
        let a_flat = a.alleles();
        let b_flat = b.alleles();
        let len = if a_flat.len() <= b_flat.len() {
            a_flat.len()
        } else {
            b_flat.len()
        };
        let ghost seed0 = *seed;
        let ghost kids = uniform_children(a_flat@, b_flat@, seed0);
        let mut child1: Vec<Ternary> = Vec::with_capacity(len);
        let mut child2: Vec<Ternary> = Vec::with_capacity(len);
        let mut i: usize = 0;
        while i < len
            invariant
                len <= a_flat@.len(),
                len <= b_flat@.len(),
                kids == uniform_children(a_flat@, b_flat@, seed0),
                kids.0.len() == len,
                kids.1.len() == len,
                i <= len,
                child1@ == kids.0.take(i as int),
                child2@ == kids.1.take(i as int),
                *seed == lcg_iter(seed0, i as nat),
            decreases len - i,
        {
            *seed = seed.wrapping_mul(LCG_MULTIPLIER).wrapping_add(1);
            assert(*seed == lcg_iter(seed0, (i + 1) as nat));
            if *seed % 2 == 0 {
                child1.push(a_flat[i]);
                child2.push(b_flat[i]);
            } else {
                child1.push(b_flat[i]);
                child2.push(a_flat[i]);
            }
            assert(child1@ =~= kids.0.take(i + 1));
            assert(child2@ =~= kids.1.take(i + 1));
            i = i + 1;
        }
        assert(child1@ =~= kids.0);
        assert(child2@ =~= kids.1);
        (Self::rebuild(a, child1), Self::rebuild(b, child2))
    }

    /// Rebuild a genome from flat alleles using the structure of a template:
    /// identifiers, gene names and dominances come from the template, the
    /// alleles from the flat list in order, Zero once the list runs out.
    fn rebuild(template: &Genome, alleles: Vec<Ternary>) -> (r: Genome)
        requires
            flat_genes(template.chromosomes@).len() <= usize::MAX,
        ensures
            same_shape(r, *template),
            r.spec_alleles() == padded(alleles@, template.spec_alleles().len()),
    {
        let ghost t = template.chromosomes@;
        let mut idx: usize = 0;
        let mut chroms: Vec<Chromosome> = Vec::new();
        let n = template.chromosomes.len();
        let mut i: usize = 0;
        assert(t.take(0) =~= Seq::<Chromosome>::empty());
        assert(gene_alleles(flat_genes(chroms@)) =~= padded(alleles@, 0));
        while i < n
            invariant
                t == template.chromosomes@,
                n == t.len(),
                i <= n,
                flat_genes(t).len() <= usize::MAX,
                chroms@.len() == i,
                forall|k: int| 0 <= k < i ==> #[trigger] same_layout(chroms@[k], t[k]),
                idx == flat_genes(t.take(i as int)).len(),
                gene_alleles(flat_genes(chroms@)) == padded(alleles@, idx as nat),
            decreases n - i,
        {
            let c = &template.chromosomes[i];
            let ghost base = idx;
            proof {
                assert(t.take(i + 1).drop_last() =~= t.take(i as int));
                assert(t =~= t.take(i + 1) + t.skip(i + 1));
                lemma_flat_genes_concat(t.take(i + 1), t.skip(i + 1));
            }
            let m = c.genes.len();
            let mut genes: Vec<Gene> = Vec::new();
            let mut j: usize = 0;
            while j < m
                invariant
                    m == c.genes@.len(),
                    j <= m,
                    base + m <= usize::MAX,
                    idx == base + j,
                    genes@.len() == j,
                    forall|q: int|
                        #![trigger genes@[q]]
                        0 <= q < j ==> genes@[q].name@ == c.genes@[q].name@
                            && genes@[q].dominance == c.genes@[q].dominance
                            && genes@[q].allele == allele_or_zero(alleles@, base + q),
                decreases m - j,
            {
                let allele = if idx < alleles.len() {
                    alleles[idx]
                } else {
                    Ternary::Zero
                };
                let g = &c.genes[j];
                let ghost prev = genes@;
                genes.push(Gene::new(g.name.as_str(), allele, g.dominance));
                assert(allele == allele_or_zero(alleles@, base + j));
                assert forall|q: int| #![trigger genes@[q]] 0 <= q < j + 1 implies genes@[q].name@
                    == c.genes@[q].name@ && genes@[q].dominance == c.genes@[q].dominance
                    && genes@[q].allele == allele_or_zero(alleles@, base + q) by {
                    if q < j {
                        assert(genes@[q] == prev[q]);
                    }
                }
                idx = idx + 1;
                j = j + 1;
            }
            let nc = Chromosome::new(c.id.as_str(), genes);
            let ghost before = chroms@;
            chroms.push(nc);
            proof {
                assert(chroms@.drop_last() =~= before);
                assert(chroms@.last() == nc);
                assert(flat_genes(chroms@) == flat_genes(before) + nc.genes@);
                assert(gene_alleles(nc.genes@) =~= Seq::new(
                    m as nat,
                    |q: int| allele_or_zero(alleles@, base + q),
                ));
                assert(same_layout(chroms@[i as int], t[i as int]));
                assert(gene_alleles(flat_genes(before) + nc.genes@) =~= gene_alleles(
                    flat_genes(before),
                ) + gene_alleles(nc.genes@));
                assert(gene_alleles(flat_genes(chroms@)) =~= padded(alleles@, idx as nat));
            }
            i = i + 1;
        }
        assert(t.take(n as int) =~= t);
        Genome::new(chroms)
    }
}

/// Two allele sequences whose values add up position by position to those of
/// two others have the same total.
pub proof fn lemma_pairwise_sum(x: Seq<Ternary>, y: Seq<Ternary>, u: Seq<Ternary>, v: Seq<Ternary>)
    requires
        x.len() == y.len(),
        y.len() == u.len(),
        u.len() == v.len(),
        forall|i: int|
            0 <= i < x.len() ==> #[trigger] x[i].value() + y[i].value() == u[i].value()
                + v[i].value(),
    ensures
        allele_sum(x) + allele_sum(y) == allele_sum(u) + allele_sum(v),
    decreases x.len(),
{
    if x.len() > 0 {
        let k = x.len() - 1;
        assert(x[k].value() + y[k].value() == u[k].value() + v[k].value());
        lemma_pairwise_sum(x.drop_last(), y.drop_last(), u.drop_last(), v.drop_last());
    }
}

/// Uniform crossover of parents with the same number of genes keeps, position by
/// position, the pair of parent alleles, and so keeps the total fitness.
pub proof fn lemma_uniform_preserves_total_fitness(a: Genome, b: Genome, seed: u64)
    requires
        a.spec_alleles().len() == b.spec_alleles().len(),
    ensures
        ({
            let kids = uniform_children(a.spec_alleles(), b.spec_alleles(), seed);
            let c1 = padded(kids.0, a.spec_alleles().len());
            let c2 = padded(kids.1, b.spec_alleles().len());
            &&& forall|i: int|
                0 <= i < c1.len() ==> (c1[i] == a.spec_alleles()[i] && c2[i] == b.spec_alleles()[i])
                    || (c1[i] == b.spec_alleles()[i] && c2[i] == a.spec_alleles()[i])
            &&& allele_sum(c1) + allele_sum(c2) == allele_sum(a.spec_alleles()) + allele_sum(
                b.spec_alleles(),
            )
        }),
{
    let fa = a.spec_alleles();
    let fb = b.spec_alleles();
    let kids = uniform_children(fa, fb, seed);
    let c1 = padded(kids.0, fa.len());
    let c2 = padded(kids.1, fb.len());
    assert(c1 =~= kids.0);
    assert(c2 =~= kids.1);
    lemma_pairwise_sum(c1, c2, fa, fb);
}

/// Single-point crossover of parents with the same number of genes swaps the
/// tails after the point, and so keeps the total fitness.
pub proof fn lemma_single_point_preserves_total_fitness(a: Genome, b: Genome, point: usize)
    requires
        a.spec_alleles().len() == b.spec_alleles().len(),
    ensures
        ({
            let kids = single_point_children(a.spec_alleles(), b.spec_alleles(), point);
            let c1 = padded(kids.0, a.spec_alleles().len());
            let c2 = padded(kids.1, b.spec_alleles().len());
            let p = split_point(point, a.spec_alleles().len(), b.spec_alleles().len());
            &&& c1 == a.spec_alleles().take(p) + b.spec_alleles().skip(p)
            &&& c2 == b.spec_alleles().take(p) + a.spec_alleles().skip(p)
            &&& allele_sum(c1) + allele_sum(c2) == allele_sum(a.spec_alleles()) + allele_sum(
                b.spec_alleles(),
            )
        }),
{
    let fa = a.spec_alleles();
    let fb = b.spec_alleles();
    let kids = single_point_children(fa, fb, point);
    let c1 = padded(kids.0, fa.len());
    let c2 = padded(kids.1, fb.len());
    assert(c1 =~= kids.0);
    assert(c2 =~= kids.1);
    let p = split_point(point, fa.len(), fb.len());
    assert forall|i: int| 0 <= i < c1.len() implies #[trigger] c1[i].value() + c2[i].value()
        == fa[i].value() + fb[i].value() by {
        if i < p {
            assert(c1[i] == fa[i] && c2[i] == fb[i]);
        } else {
            assert(c1[i] == fb[i] && c2[i] == fa[i]);
        }
    }
    lemma_pairwise_sum(c1, c2, fa, fb);
}

/// The crossover point is the smallest of the requested point and the two
/// parents' lengths: a point within both parents is used as it is, whether or
/// not the parents have the same length.
pub proof fn lemma_split_point_is_min(point: usize, la: nat, lb: nat)
    ensures
        split_point(point, la, lb) <= point,
        split_point(point, la, lb) <= la,
        split_point(point, la, lb) <= lb,
        split_point(point, la, lb) == point || split_point(point, la, lb) == la
            || split_point(point, la, lb) == lb,
        point <= la && point <= lb ==> split_point(point, la, lb) == point,
{
}

/// Single-point crossover cuts both parents at the same place `p` (the point,
/// or the shorter length where the point is past it): the first child is the
/// first parent's alleles before `p` and the second parent's from `p` on, the
/// second child the other way round, so every position keeps its pair of
/// parent alleles.
pub proof fn lemma_single_point_children(fa: Seq<Ternary>, fb: Seq<Ternary>, point: usize)
    ensures
        ({
            let p = split_point(point, fa.len(), fb.len());
            let (c1, c2) = single_point_children(fa, fb, point);
            &&& c1.len() == fb.len()
            &&& c2.len() == fa.len()
            &&& forall|i: int| 0 <= i < p ==> #[trigger] c1[i] == fa[i] && c2[i] == fb[i]
            &&& forall|i: int| p <= i < fb.len() ==> #[trigger] c1[i] == fb[i]
            &&& forall|i: int| p <= i < fa.len() ==> #[trigger] c2[i] == fa[i]
        }),
{
    lemma_split_point_is_min(point, fa.len(), fb.len());
}

/// Uniform crossover gives children as long as the shorter parent; at each
/// position one child has the first parent's allele and the other the second's,
/// the first child taking the first parent's exactly when the generator state
/// after that many steps is even.
pub proof fn lemma_uniform_children(fa: Seq<Ternary>, fb: Seq<Ternary>, seed: u64)
    ensures
        ({
            let (c1, c2) = uniform_children(fa, fb, seed);
            &&& c1.len() == c2.len()
            &&& c1.len() <= fa.len() && c1.len() <= fb.len()
            &&& (c1.len() == fa.len() || c1.len() == fb.len())
            &&& forall|i: int|
                0 <= i < c1.len() ==> (#[trigger] c1[i] == fa[i] && c2[i] == fb[i] <== lcg_iter(
                    seed,
                    (i + 1) as nat,
                ) % 2 == 0) && (c1[i] == fb[i] && c2[i] == fa[i] <== lcg_iter(seed, (i + 1) as nat)
                    % 2 == 1)
        }),
{
}

/// Padding keeps the given alleles and fills with Zero past their end.
pub proof fn lemma_padded(alleles: Seq<Ternary>, n: nat)
    ensures
        padded(alleles, n).len() == n,
        forall|k: int| 0 <= k < n && k < alleles.len() ==> #[trigger] padded(alleles, n)[k] == alleles[k],
        forall|k: int| alleles.len() <= k < n ==> #[trigger] padded(alleles, n)[k] == Ternary::Zero,
        n == alleles.len() ==> padded(alleles, n) == alleles,
{
    if n == alleles.len() {
        assert(padded(alleles, n) =~= alleles);
    }
}

} // verus!
