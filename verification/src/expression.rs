//! Gene expression: from genotype to phenotype, with dominance between parents.
use vstd::prelude::*;

use crate::gene::{gene_index, Chromosome, Gene};
use crate::genome::{flat_genes, Genome};
use crate::ternary::Ternary;

verus! {

/// Result of expressing a genome into a phenotype.
#[derive(Clone, Debug)]
pub struct GeneExpression {
    /// Expressed traits: (gene_name, expressed_value).
    pub traits: Vec<(String, Ternary)>,
}

/// The trait that a gene expresses on its own: its name and its allele.
pub open spec fn gene_trait(g: Gene) -> (String, Ternary) {
    (g.name, g.allele)
}

/// The traits of a gene sequence, in order.
pub open spec fn gene_traits(genes: Seq<Gene>) -> Seq<(String, Ternary)> {
    genes.map_values(|g: Gene| gene_trait(g))
}

/// The value of the first trait named `name`, if any.
pub open spec fn trait_lookup(traits: Seq<(String, Ternary)>, name: Seq<char>) -> Option<Ternary>
    decreases traits.len(),
{
    if traits.len() == 0 {
        None
    } else if traits[0].0@ == name {
        Some(traits[0].1)
    } else {
        trait_lookup(traits.drop_first(), name)
    }
}

/// The trait expressed for a gene of the first parent: where the second parent
/// has a gene of that name (its first one), the allele of higher dominance wins,
/// and a tie goes to the first parent.
pub open spec fn parent_trait(ga: Gene, b: Seq<Gene>) -> (String, Ternary) {
    match gene_index(b, ga.name@) {
        Some(k) => (ga.name, if ga.dominance >= b[k].dominance {
            ga.allele
        } else {
            b[k].allele
        }),
        None => (ga.name, ga.allele),
    }
}

/// The traits of the genes of `b` whose name no gene of `a` has, in order.
pub open spec fn unmatched_traits(b: Seq<Gene>, a: Seq<Gene>) -> Seq<(String, Ternary)>
    decreases b.len(),
{
    if b.len() == 0 {
        Seq::empty()
    } else {
        let rest = unmatched_traits(b.drop_last(), a);
        if gene_index(a, b.last().name@) is None {
            rest.push(gene_trait(b.last()))
        } else {
            rest
        }
    }
}

/// The traits expressed from two parents: one per gene of `a`, then one per gene
/// of `b` whose name `a` lacks.
pub open spec fn parents_traits(a: Seq<Gene>, b: Seq<Gene>) -> Seq<(String, Ternary)> {
    a.map_values(|ga: Gene| parent_trait(ga, b)) + unmatched_traits(b, a)
}

/// What the parents express for `name`: the dominant allele where both have the
/// gene, the one parent's allele where only one has it.
pub open spec fn dominant_allele(a: Seq<Gene>, b: Seq<Gene>, name: Seq<char>) -> Option<Ternary> {
    match (gene_index(a, name), gene_index(b, name)) {
        (Some(i), Some(j)) => Some(
            if a[i].dominance >= b[j].dominance {
                a[i].allele
            } else {
                b[j].allele
            },
        ),
        (Some(i), None) => Some(a[i].allele),
        (None, Some(j)) => Some(b[j].allele),
        (None, None) => None,
    }
}

impl GeneExpression {
    /// Express a single chromosome: each gene's own allele.
    pub fn from_chromosome(chrom: &Chromosome) -> (r: Self)
        ensures
            r.traits@ == gene_traits(chrom.genes@),
    {
        let mut traits: Vec<(String, Ternary)> = Vec::new();
        let m = chrom.genes.len();
        let mut j: usize = 0;
        while j < m
            invariant
                m == chrom.genes@.len(),
                j <= m,
                traits@ == gene_traits(chrom.genes@.take(j as int)),
            decreases m - j,
        {
            let g = &chrom.genes[j];
            traits.push((g.name.clone(), g.allele));
            assert(gene_traits(chrom.genes@.take(j + 1)) =~= gene_traits(
                chrom.genes@.take(j as int),
            ).push(gene_trait(chrom.genes@[j as int])));
            j = j + 1;
        }
        assert(chrom.genes@.take(m as int) =~= chrom.genes@);
        GeneExpression { traits }
    }

    /// Express full genome (all chromosomes).
    pub fn from_genome(genome: &Genome) -> (r: Self)
        ensures
            r.traits@ == gene_traits(flat_genes(genome.chromosomes@)),
    {
        let mut traits: Vec<(String, Ternary)> = Vec::new();
        let n = genome.chromosomes.len();
        let mut i: usize = 0;
        assert(genome.chromosomes@.take(0) =~= Seq::<Chromosome>::empty());
        assert(gene_traits(Seq::<Gene>::empty()) =~= Seq::<(String, Ternary)>::empty());
        while i < n
            invariant
                n == genome.chromosomes@.len(),
                i <= n,
                traits@ == gene_traits(flat_genes(genome.chromosomes@.take(i as int))),
            decreases n - i,
        {
            let c = &genome.chromosomes[i];
            let m = c.genes.len();
            let mut j: usize = 0;
            let ghost base = traits@;
            assert(base + gene_traits(c.genes@.take(0)) =~= base);
            while j < m
                invariant
                    m == c.genes@.len(),
                    j <= m,
                    traits@ == base + gene_traits(c.genes@.take(j as int)),
                decreases m - j,
            {
                let g = &c.genes[j];
                traits.push((g.name.clone(), g.allele));
                assert(gene_traits(c.genes@.take(j + 1)) =~= gene_traits(
                    c.genes@.take(j as int),
                ).push(gene_trait(c.genes@[j as int])));
                assert(traits@ =~= base + gene_traits(c.genes@.take(j + 1)));
                j = j + 1;
            }
            proof {
                assert(genome.chromosomes@.take(i + 1).drop_last() =~= genome.chromosomes@.take(
                    i as int,
                ));
                assert(c.genes@.take(m as int) =~= c.genes@);
                assert(gene_traits(flat_genes(genome.chromosomes@.take(i as int)) + c.genes@)
                    =~= gene_traits(flat_genes(genome.chromosomes@.take(i as int)))
                    + gene_traits(c.genes@));
            }
            i = i + 1;
        }
        assert(genome.chromosomes@.take(n as int) =~= genome.chromosomes@);
        GeneExpression { traits }
    }

    /// Express by combining two parents (higher dominance wins).
    pub fn from_parents(a: &Chromosome, b: &Chromosome) -> (r: Self)
        ensures
            r.traits@ == parents_traits(a.genes@, b.genes@),
    {
        let mut traits: Vec<(String, Ternary)> = Vec::new();
        let ghost first = a.genes@.map_values(|ga: Gene| parent_trait(ga, b.genes@));
        let m = a.genes.len();
        let mut j: usize = 0;
        while j < m
            invariant
                m == a.genes@.len(),
                j <= m,
                first == a.genes@.map_values(|ga: Gene| parent_trait(ga, b.genes@)),
                traits@ == first.take(j as int),
            decreases m - j,
        {
            let ga = &a.genes[j];
            match b.gene(ga.name.as_str()) {
                Some(gb) => {
                    let allele = if ga.dominance >= gb.dominance {
                        ga.allele
                    } else {
                        gb.allele
                    };
                    traits.push((ga.name.clone(), allele));
                },
                None => {
                    traits.push((ga.name.clone(), ga.allele));
                },
            }
            assert(traits@ =~= first.take(j + 1));
            j = j + 1;
        }
        assert(first.take(m as int) =~= first);
        let k = b.genes.len();
        let mut j: usize = 0;
        assert(b.genes@.take(0) =~= Seq::<Gene>::empty());
        assert(first + unmatched_traits(Seq::<Gene>::empty(), a.genes@) =~= first);
        while j < k
            invariant
                k == b.genes@.len(),
                j <= k,
                first == a.genes@.map_values(|ga: Gene| parent_trait(ga, b.genes@)),
                traits@ == first + unmatched_traits(b.genes@.take(j as int), a.genes@),
            decreases k - j,
        {
            let gb = &b.genes[j];
            assert(b.genes@.take(j + 1).drop_last() =~= b.genes@.take(j as int));
            let found = a.gene(gb.name.as_str());
            if found.is_none() {
                traits.push((gb.name.clone(), gb.allele));
                assert(traits@ =~= first + unmatched_traits(b.genes@.take(j + 1), a.genes@));
            }
            j = j + 1;
        }
        assert(b.genes@.take(k as int) =~= b.genes@);
        GeneExpression { traits }
    }

    /// Get expressed value of a trait by name: that of the first trait so named.
    pub fn trait_value(&self, name: &str) -> (r: Option<Ternary>)
        ensures
            r == trait_lookup(self.traits@, name@),
    {
        let key = name.to_owned();
        let n = self.traits.len();
        let mut i: usize = 0;
        assert(self.traits@.skip(0) =~= self.traits@);
        while i < n
            invariant
                n == self.traits@.len(),
                i <= n,
                key@ == name@,
                trait_lookup(self.traits@, name@) == trait_lookup(
                    self.traits@.skip(i as int),
                    name@,
                ),
            decreases n - i,
        {
            assert(self.traits@.skip(i as int).drop_first() =~= self.traits@.skip(i + 1));
            if self.traits[i].0 == key {
                return Some(self.traits[i].1);
            }
            i = i + 1;
        }
        None
    }
}

/// The first gene named `name` is the one at the index that `gene_index` gives,
/// and no gene before it has that name; without an index no gene has the name.
pub proof fn lemma_gene_index_spec(genes: Seq<Gene>, name: Seq<char>)
    ensures
        match gene_index(genes, name) {
            Some(i) => 0 <= i < genes.len() && genes[i].name@ == name && forall|j: int|
                0 <= j < i ==> #[trigger] genes[j].name@ != name,
            None => forall|j: int| 0 <= j < genes.len() ==> #[trigger] genes[j].name@ != name,
        },
    decreases genes.len(),
{
    if genes.len() > 0 {
        lemma_gene_index_spec(genes.drop_first(), name);
        if genes[0].name@ != name {
            assert forall|j: int| 1 <= j < genes.len() implies #[trigger] genes[j].name@
                == genes.drop_first()[j - 1].name@ by {}
        }
    }
}

/// Appending a gene changes the first match only where there was none.
proof fn lemma_gene_index_push(genes: Seq<Gene>, g: Gene, name: Seq<char>)
    ensures
        gene_index(genes.push(g), name) == match gene_index(genes, name) {
            Some(i) => Some(i),
            None => if g.name@ == name {
                Some(genes.len() as int)
            } else {
                None
            },
        },
    decreases genes.len(),
{
    if genes.len() > 0 {
        assert(genes.push(g)[0] == genes[0]);
        assert(genes.push(g).drop_first() =~= genes.drop_first().push(g));
        lemma_gene_index_push(genes.drop_first(), g, name);
    } else {
        assert(genes.push(g)[0] == g);
        assert(genes.push(g).drop_first() =~= Seq::<Gene>::empty());
        assert(gene_index(Seq::<Gene>::empty(), name) is None);
    }
}

/// Looking up a name in two trait lists put together finds it in the first
/// list if it is there, else in the second.
proof fn lemma_trait_lookup_concat(x: Seq<(String, Ternary)>, y: Seq<(String, Ternary)>, name: Seq<char>)
    ensures
        trait_lookup(x + y, name) == if trait_lookup(x, name) is Some {
            trait_lookup(x, name)
        } else {
            trait_lookup(y, name)
        },
    decreases x.len(),
{
    if x.len() == 0 {
        assert(x + y =~= y);
    } else {
        assert((x + y)[0] == x[0]);
        assert((x + y).drop_first() =~= x.drop_first() + y);
        lemma_trait_lookup_concat(x.drop_first(), y, name);
    }
}

/// A trait list named like a gene list finds a name where the gene list first
/// has it.
proof fn lemma_trait_lookup_named(ts: Seq<(String, Ternary)>, genes: Seq<Gene>, name: Seq<char>)
    requires
        ts.len() == genes.len(),
        forall|i: int| 0 <= i < ts.len() ==> #[trigger] ts[i].0@ == genes[i].name@,
    ensures
        trait_lookup(ts, name) == match gene_index(genes, name) {
            Some(i) => Some(ts[i].1),
            None => None,
        },
    decreases ts.len(),
{
    if ts.len() > 0 {
        assert(ts[0].0@ == genes[0].name@);
        assert forall|i: int| 0 <= i < ts.drop_first().len() implies #[trigger] ts.drop_first()[i].0@
            == genes.drop_first()[i].name@ by {
            assert(ts[i + 1].0@ == genes[i + 1].name@);
        }
        lemma_trait_lookup_named(ts.drop_first(), genes.drop_first(), name);
        lemma_gene_index_spec(genes.drop_first(), name);
        match gene_index(genes.drop_first(), name) {
            Some(k) => {
                assert(ts.drop_first()[k] == ts[k + 1]);
            },
            None => {},
        }
    }
}

/// Where the first parent lacks a name, the unmatched traits of the second
/// parent express that name as the second parent's first gene of that name.
proof fn lemma_unmatched_lookup(b: Seq<Gene>, a: Seq<Gene>, name: Seq<char>)
    requires
        gene_index(a, name) is None,
    ensures
        trait_lookup(unmatched_traits(b, a), name) == match gene_index(b, name) {
            Some(j) => Some(b[j].allele),
            None => None,
        },
    decreases b.len(),
{
    if b.len() > 0 {
        let b0 = b.drop_last();
        let g = b.last();
        lemma_unmatched_lookup(b0, a, name);
        assert(b =~= b0.push(g));
        lemma_gene_index_push(b0, g, name);
        lemma_gene_index_spec(b0, name);
        let rest = unmatched_traits(b0, a);
        lemma_trait_lookup_concat(rest, seq![gene_trait(g)], name);
        assert(rest.push(gene_trait(g)) =~= rest + seq![gene_trait(g)]);
        assert(seq![gene_trait(g)].drop_first() =~= Seq::<(String, Ternary)>::empty());
        assert(seq![gene_trait(g)][0] == gene_trait(g));
        assert(trait_lookup(Seq::<(String, Ternary)>::empty(), name) is None);
        match gene_index(b0, name) {
            Some(j) => {
                assert(b[j] == b0[j]);
            },
            None => {
                if g.name@ == name {
                    assert(gene_index(a, g.name@) is None);
                    assert(unmatched_traits(b, a) == rest.push(gene_trait(g)));
                    assert(trait_lookup(seq![gene_trait(g)], name) == Some(g.allele));
                } else {
                    assert(trait_lookup(seq![gene_trait(g)], name) is None);
                }
            },
        }
    }
}

/// Expressing genes on their own (a chromosome, or a genome's genes in order)
/// and reading a trait gives the allele of the first gene of that name, and
/// nothing where no gene has it.
pub proof fn lemma_gene_traits_lookup(genes: Seq<Gene>, name: Seq<char>)
    ensures
        trait_lookup(gene_traits(genes), name) == match gene_index(genes, name) {
            Some(k) => Some(genes[k].allele),
            None => None,
        },
{
    let ts = gene_traits(genes);
    assert forall|i: int| 0 <= i < ts.len() implies #[trigger] ts[i].0@ == genes[i].name@ by {
        assert(ts[i] == gene_trait(genes[i]));
    }
    lemma_trait_lookup_named(ts, genes, name);
    lemma_gene_index_spec(genes, name);
    match gene_index(genes, name) {
        Some(k) => {
            assert(ts[k] == gene_trait(genes[k]));
        },
        None => {},
    }
}

/// Expressing two parents and reading a trait gives the allele of higher
/// dominance where both parents have the gene (the first parent's on a tie),
/// and the one parent's allele where only one has it.
pub proof fn lemma_from_parents_dominance(a: Chromosome, b: Chromosome, name: Seq<char>)
    ensures
        trait_lookup(parents_traits(a.genes@, b.genes@), name) == dominant_allele(
            a.genes@,
            b.genes@,
            name,
        ),
        forall|i: int, j: int|
            0 <= i < a.genes@.len() && 0 <= j < b.genes@.len() && gene_index(a.genes@, name)
                == Some(i) && gene_index(b.genes@, name) == Some(j) ==> {
                &&& a.genes@[i].dominance >= b.genes@[j].dominance ==> trait_lookup(
                    parents_traits(a.genes@, b.genes@),
                    name,
                ) == Some(a.genes@[i].allele)
                &&& a.genes@[i].dominance < b.genes@[j].dominance ==> trait_lookup(
                    parents_traits(a.genes@, b.genes@),
                    name,
                ) == Some(b.genes@[j].allele)
            },
        gene_index(a.genes@, name) is None ==> trait_lookup(
            parents_traits(a.genes@, b.genes@),
            name,
        ) == match gene_index(b.genes@, name) {
            Some(j) => Some(b.genes@[j].allele),
            None => None,
        },
        forall|i: int|
            0 <= i < a.genes@.len() && gene_index(a.genes@, name) == Some(i) && gene_index(
                b.genes@,
                name,
            ) is None ==> trait_lookup(parents_traits(a.genes@, b.genes@), name) == Some(
                a.genes@[i].allele,
            ),
{
    let first = a.genes@.map_values(|ga: Gene| parent_trait(ga, b.genes@));
    assert forall|i: int| 0 <= i < first.len() implies #[trigger] first[i].0@
        == a.genes@[i].name@ by {
        assert(first[i] == parent_trait(a.genes@[i], b.genes@));
    }
    lemma_trait_lookup_concat(first, unmatched_traits(b.genes@, a.genes@), name);
    lemma_trait_lookup_named(first, a.genes@, name);
    lemma_gene_index_spec(a.genes@, name);
    match gene_index(a.genes@, name) {
        Some(i) => {
            assert(first[i] == parent_trait(a.genes@[i], b.genes@));
        },
        None => {
            lemma_unmatched_lookup(b.genes@, a.genes@, name);
        },
    }
}

/// Expressing a genome gives one trait per gene.
pub proof fn lemma_from_genome_trait_count(g: Genome)
    ensures
        gene_traits(flat_genes(g.chromosomes@)).len() == g.spec_gene_count(),
{
    crate::genome::lemma_gene_count_is_allele_count(g);
}

/// The traits of two parents are one per gene of the first parent, named as
/// that gene, followed by the traits of exactly those genes of the second
/// parent whose name the first parent lacks, in order: no trait after the first
/// parent's names a gene that the first parent has.
pub proof fn lemma_parents_traits_names(a: Seq<Gene>, b: Seq<Gene>)
    ensures
        ({
            let ts = parents_traits(a, b);
            &&& forall|i: int| 0 <= i < a.len() ==> #[trigger] ts[i].0 == a[i].name
            &&& forall|k: int| a.len() <= k < ts.len() ==> #[trigger] gene_index(a, ts[k].0@) is None
            &&& ts.skip(a.len() as int) == b.filter(|g: Gene| gene_index(a, g.name@) is None).map_values(
                |g: Gene| (g.name, g.allele),
            )
        }),
{
    let first = a.map_values(|ga: Gene| parent_trait(ga, b));
    let ts = parents_traits(a, b);
    assert forall|i: int| 0 <= i < a.len() implies #[trigger] ts[i].0 == a[i].name by {
        assert(ts[i] == first[i]);
        assert(first[i] == parent_trait(a[i], b));
    }
    lemma_unmatched_is_filter(b, a);
    assert(ts.skip(a.len() as int) =~= unmatched_traits(b, a));
    let pred = |g: Gene| gene_index(a, g.name@) is None;
    assert forall|k: int| a.len() <= k < ts.len() implies #[trigger] gene_index(a, ts[k].0@) is None by {
        let j = k - a.len();
        assert(ts[k] == unmatched_traits(b, a)[j]);
        b.lemma_filter_pred(pred, j);
    }
}

/// The unmatched traits are the traits of the second parent's genes that the
/// first parent lacks, in order.
proof fn lemma_unmatched_is_filter(b: Seq<Gene>, a: Seq<Gene>)
    ensures
        unmatched_traits(b, a) == b.filter(|g: Gene| gene_index(a, g.name@) is None).map_values(
            |g: Gene| (g.name, g.allele),
        ),
    decreases b.len(),
{
    reveal(Seq::filter);
    let pred = |g: Gene| gene_index(a, g.name@) is None;
    if b.len() > 0 {
        lemma_unmatched_is_filter(b.drop_last(), a);
        let f = b.drop_last().filter(pred);
        if pred(b.last()) {
            assert(f.push(b.last()).map_values(|g: Gene| (g.name, g.allele)) =~= f.map_values(
                |g: Gene| (g.name, g.allele),
            ).push(gene_trait(b.last())));
        }
    } else {
        assert(b.filter(pred).map_values(|g: Gene| (g.name, g.allele)) =~= Seq::<
            (String, Ternary),
        >::empty());
    }
}

/// Reading a trait gives the value of the first trait of that name, and
/// nothing where no trait has the name.
pub proof fn lemma_trait_lookup_first(traits: Seq<(String, Ternary)>, name: Seq<char>)
    ensures
        trait_lookup(traits, name) is None <==> forall|k: int|
            0 <= k < traits.len() ==> #[trigger] traits[k].0@ != name,
        forall|k: int|
            0 <= k < traits.len() && traits[k].0@ == name && (forall|j: int|
                0 <= j < k ==> #[trigger] traits[j].0@ != name) ==> trait_lookup(traits, name)
                == Some(#[trigger] traits[k].1),
    decreases traits.len(),
{
    if traits.len() > 0 {
        let rest = traits.drop_first();
        lemma_trait_lookup_first(rest, name);
        assert forall|k: int| 1 <= k < traits.len() implies #[trigger] traits[k] == rest[k - 1] by {}
        if traits[0].0@ != name {
            assert forall|k: int|
                0 <= k < traits.len() && traits[k].0@ == name && (forall|j: int|
                    0 <= j < k ==> #[trigger] traits[j].0@ != name) implies trait_lookup(
                traits,
                name,
            ) == Some(#[trigger] traits[k].1) by {
                assert(k >= 1);
                assert(rest[k - 1] == traits[k]);
                assert forall|j: int| 0 <= j < k - 1 implies #[trigger] rest[j].0@ != name by {
                    assert(rest[j] == traits[j + 1]);
                }
            }
            if trait_lookup(traits, name) is None {
                assert forall|k: int| 0 <= k < traits.len() implies #[trigger] traits[k].0@
                    != name by {
                    if k >= 1 {
                        assert(rest[k - 1] == traits[k]);
                    }
                }
            } else {
                let kk = choose|k: int| 0 <= k < rest.len() && #[trigger] rest[k].0@ == name;
                assert(rest[kk] == traits[kk + 1]);
            }
        }
    }
}

} // verus!
