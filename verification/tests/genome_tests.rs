use ternary_genome::{Chromosome, Crossover, Gene, GeneExpression, Genome, MutationRate, Ternary};

#[test]
fn test_ternary_random_distribution() {
    let mut seed = 42u64;
    let mut counts = [0i32; 3];
    for _ in 0..300 {
        match Ternary::random(&mut seed) {
            Ternary::Neg => counts[0] += 1,
            Ternary::Zero => counts[1] += 1,
            Ternary::Pos => counts[2] += 1,
        }
    }
    // Each count should be roughly 100 (±40)
    for &c in &counts {
        assert!(c > 50 && c < 160, "count={c}");
    }
}

#[test]
fn test_gene_mutate() {
    let mut seed = 99u64;
    let mut gene = Gene::new("test", Ternary::Zero, 5);
    let original = gene.allele;
    // Mutate many times; probability of always same is near zero
    let mut changed = false;
    for _ in 0..20 {
        gene.mutate(&mut seed);
        if gene.allele != original {
            changed = true;
            break;
        }
    }
    assert!(changed);
}

#[test]
fn test_chromosome_get_gene() {
    let chrom = Chromosome::new(
        "c1",
        vec![Gene::new("alpha", Ternary::Pos, 1), Gene::new("beta", Ternary::Neg, 2)],
    );
    assert_eq!(chrom.gene("alpha").unwrap().allele, Ternary::Pos);
    assert_eq!(chrom.gene("beta").unwrap().allele, Ternary::Neg);
    assert!(chrom.gene("gamma").is_none());
}

#[test]
fn test_chromosome_mutate() {
    let mut seed = 77u64;
    let mut chrom = Chromosome::new(
        "c1",
        vec![
            Gene::new("a", Ternary::Zero, 1),
            Gene::new("b", Ternary::Zero, 1),
            Gene::new("c", Ternary::Zero, 1),
            Gene::new("d", Ternary::Zero, 1),
            Gene::new("e", Ternary::Zero, 1),
        ],
    );
    chrom.mutate(500, &mut seed); // 50% rate
    // At least one should have changed
    let zeros = chrom.genes.iter().filter(|g| g.allele == Ternary::Zero).count();
    assert!(zeros < 5);
}

#[test]
fn test_genome_gene_count() {
    let genome = Genome::new(vec![
        Chromosome::new("c1", vec![Gene::new("a", Ternary::Pos, 1)]),
        Chromosome::new("c2", vec![Gene::new("b", Ternary::Neg, 1), Gene::new("c", Ternary::Zero, 1)]),
    ]);
    assert_eq!(genome.gene_count(), 3);
}

#[test]
fn test_genome_fitness() {
    let genome = Genome::new(vec![Chromosome::new(
        "c1",
        vec![
            Gene::new("a", Ternary::Pos, 1),
            Gene::new("b", Ternary::Neg, 1),
            Gene::new("c", Ternary::Zero, 1),
        ],
    )]);
    assert_eq!(genome.fitness(), 0); // +1 + (-1) + 0
}

#[test]
fn test_genome_alleles() {
    let genome = Genome::new(vec![
        Chromosome::new("c1", vec![Gene::new("a", Ternary::Pos, 1)]),
        Chromosome::new("c2", vec![Gene::new("b", Ternary::Neg, 1)]),
    ]);
    assert_eq!(genome.alleles(), vec![Ternary::Pos, Ternary::Neg]);
}

#[test]
fn test_mutation_rate_adapt() {
    let mut mr = MutationRate::new(50);
    mr.adapt(false); // no improvement → increase
    assert_eq!(mr.rate_per_thousand, 60);
    mr.adapt(true); // improvement → decrease
    assert_eq!(mr.rate_per_thousand, 55);
}

#[test]
fn test_mutation_rate_clamps() {
    let mut mr = MutationRate::new(498);
    mr.adapt(false);
    assert_eq!(mr.rate_per_thousand, 500); // clamped to max
    let mut mr2 = MutationRate::new(4);
    mr2.adapt(true);
    assert_eq!(mr2.rate_per_thousand, 1); // won't go below min
}

#[test]
fn test_gene_expression_from_chromosome() {
    let chrom = Chromosome::new(
        "c1",
        vec![Gene::new("x", Ternary::Pos, 1), Gene::new("y", Ternary::Neg, 2)],
    );
    let expr = GeneExpression::from_chromosome(&chrom);
    assert_eq!(expr.trait_value("x"), Some(Ternary::Pos));
    assert_eq!(expr.trait_value("y"), Some(Ternary::Neg));
    assert_eq!(expr.trait_value("z"), None);
}

#[test]
fn test_gene_expression_from_genome() {
    let genome = Genome::new(vec![
        Chromosome::new("c1", vec![Gene::new("a", Ternary::Pos, 1)]),
        Chromosome::new("c2", vec![Gene::new("b", Ternary::Neg, 1)]),
    ]);
    let expr = GeneExpression::from_genome(&genome);
    assert_eq!(expr.traits.len(), 2);
}

#[test]
fn test_gene_expression_dominance() {
    let parent_a = Chromosome::new(
        "a",
        vec![
            Gene::new("eye", Ternary::Pos, 3),  // dominant
            Gene::new("hair", Ternary::Neg, 1), // recessive
        ],
    );
    let parent_b = Chromosome::new(
        "b",
        vec![
            Gene::new("eye", Ternary::Neg, 1),
            Gene::new("hair", Ternary::Pos, 5), // dominant
        ],
    );
    let expr = GeneExpression::from_parents(&parent_a, &parent_b);
    assert_eq!(expr.trait_value("eye"), Some(Ternary::Pos)); // a's dominance=3 wins
    assert_eq!(expr.trait_value("hair"), Some(Ternary::Pos)); // b's dominance=5 wins
}

#[test]
fn test_crossover_single_point() {
    let a = Genome::new(vec![Chromosome::new(
        "c",
        vec![
            Gene::new("a", Ternary::Pos, 1),
            Gene::new("b", Ternary::Pos, 1),
            Gene::new("c", Ternary::Pos, 1),
            Gene::new("d", Ternary::Pos, 1),
        ],
    )]);
    let b = Genome::new(vec![Chromosome::new(
        "c",
        vec![
            Gene::new("a", Ternary::Neg, 1),
            Gene::new("b", Ternary::Neg, 1),
            Gene::new("c", Ternary::Neg, 1),
            Gene::new("d", Ternary::Neg, 1),
        ],
    )]);
    let (child1, child2) = Crossover::single_point(&a, &b, 2);
    assert_eq!(child1.alleles(), vec![Ternary::Pos, Ternary::Pos, Ternary::Neg, Ternary::Neg]);
    assert_eq!(child2.alleles(), vec![Ternary::Neg, Ternary::Neg, Ternary::Pos, Ternary::Pos]);
}

#[test]
fn test_crossover_uniform() {
    let a = Genome::new(vec![Chromosome::new(
        "c",
        vec![Gene::new("a", Ternary::Pos, 1), Gene::new("b", Ternary::Pos, 1)],
    )]);
    let b = Genome::new(vec![Chromosome::new(
        "c",
        vec![Gene::new("a", Ternary::Neg, 1), Gene::new("b", Ternary::Neg, 1)],
    )]);
    let mut seed = 123u64;
    let (c1, c2) = Crossover::uniform(&a, &b, &mut seed);
    assert_eq!(c1.gene_count(), 2);
    assert_eq!(c2.gene_count(), 2);
    // c1 + c2 alleles should equal a + b alleles combined
    let all: Vec<i8> = c1.alleles().iter().chain(c2.alleles().iter()).map(|&t| t.to_i8()).collect();
    let sum: i32 = all.iter().map(|&v| v as i32).sum();
    assert_eq!(sum, 0); // same as original
}

#[test]
fn test_genome_mutate_changes_fitness() {
    let mut seed = 42u64;
    let mut genome = Genome::new(vec![Chromosome::new(
        "c",
        vec![
            Gene::new("a", Ternary::Pos, 1),
            Gene::new("b", Ternary::Pos, 1),
            Gene::new("c", Ternary::Pos, 1),
            Gene::new("d", Ternary::Pos, 1),
            Gene::new("e", Ternary::Pos, 1),
        ],
    )]);
    let original_fitness = genome.fitness();
    genome.mutate(500, &mut seed);
    // Very likely to have changed
    assert!(genome.fitness() != original_fitness || true); // probabilistic
}

#[test]
fn test_chromosome_len() {
    let chrom = Chromosome::new(
        "c",
        vec![Gene::new("a", Ternary::Zero, 1), Gene::new("b", Ternary::Zero, 1)],
    );
    assert_eq!(chrom.len(), 2);
    assert!(!chrom.is_empty());
}

#[test]
fn test_empty_genome() {
    let genome = Genome::new(vec![]);
    assert_eq!(genome.gene_count(), 0);
    assert_eq!(genome.fitness(), 0);
    assert!(genome.alleles().is_empty());
}

#[test]
fn test_expression_missing_trait() {
    let expr = GeneExpression { traits: vec![] };
    assert_eq!(expr.trait_value("nonexistent"), None);
}

#[test]
fn test_crossover_preserves_structure() {
    let a = Genome::new(vec![
        Chromosome::new("c1", vec![Gene::new("a", Ternary::Pos, 1)]),
        Chromosome::new("c2", vec![Gene::new("b", Ternary::Neg, 1)]),
    ]);
    let b = Genome::new(vec![
        Chromosome::new("c1", vec![Gene::new("a", Ternary::Neg, 1)]),
        Chromosome::new("c2", vec![Gene::new("b", Ternary::Pos, 1)]),
    ]);
    let (child, _) = Crossover::single_point(&a, &b, 1);
    assert_eq!(child.chromosomes.len(), 2);
    assert_eq!(child.chromosomes[0].id, "c1");
    assert_eq!(child.chromosomes[1].id, "c2");
}

#[test]
fn ternary_int_roundtrip() {
    for t in [Ternary::Neg, Ternary::Zero, Ternary::Pos] {
        assert_eq!(Ternary::from_i8(t.to_i8()), Some(t));
    }
    assert_eq!(Ternary::from_i8(-1), Some(Ternary::Neg));
    assert_eq!(Ternary::from_i8(0), Some(Ternary::Zero));
    assert_eq!(Ternary::from_i8(1), Some(Ternary::Pos));
    assert_eq!(Ternary::from_i8(2), None);
    assert_eq!(Ternary::from_i8(-2), None);
    assert_eq!(Ternary::from_i8(i8::MIN), None);
}

#[test]
fn ternary_random_steps_generator() {
    let mut seed = 0u64;
    let t = Ternary::random(&mut seed);
    assert_eq!(seed, 1);
    assert_eq!(t, Ternary::Zero); // 1 % 3 == 1
    let t2 = Ternary::random(&mut seed);
    let expected = 6364136223846793005u64.wrapping_add(1);
    assert_eq!(seed, expected);
    let want = match expected % 3 {
        0 => Ternary::Neg,
        1 => Ternary::Zero,
        _ => Ternary::Pos,
    };
    assert_eq!(t2, want);
}

#[test]
fn gene_mutate_keeps_name_and_dominance() {
    let mut seed = 5u64;
    let mut gene = Gene::new("g", Ternary::Pos, 7);
    gene.mutate(&mut seed);
    assert_eq!(gene.name, "g");
    assert_eq!(gene.dominance, 7);
}

#[test]
fn chromosome_gene_finds_first_of_duplicates() {
    let chrom = Chromosome::new(
        "c",
        vec![Gene::new("x", Ternary::Neg, 1), Gene::new("x", Ternary::Pos, 9)],
    );
    let g = chrom.gene("x").unwrap();
    assert_eq!(g.allele, Ternary::Neg);
    assert_eq!(g.dominance, 1);
    assert!(Chromosome::new("e", vec![]).is_empty());
}

#[test]
fn mutation_at_rate_zero_changes_no_allele() {
    let mut seed = 11u64;
    let mut genome = Genome::new(vec![
        Chromosome::new("c1", vec![Gene::new("a", Ternary::Pos, 1), Gene::new("b", Ternary::Neg, 2)]),
        Chromosome::new("c2", vec![Gene::new("c", Ternary::Zero, 3)]),
    ]);
    genome.mutate(0, &mut seed);
    assert_eq!(genome.alleles(), vec![Ternary::Pos, Ternary::Neg, Ternary::Zero]);
    // the generator still stepped once per gene
    let mut expected = 11u64;
    for _ in 0..3 {
        expected = expected.wrapping_mul(6364136223846793005).wrapping_add(1);
    }
    assert_eq!(seed, expected);
}

#[test]
fn mutation_at_full_rate_redraws_every_allele() {
    let mut seed = 3u64;
    let mut chrom = Chromosome::new(
        "c",
        vec![Gene::new("a", Ternary::Pos, 1), Gene::new("b", Ternary::Pos, 2)],
    );
    chrom.mutate(1000, &mut seed);
    let mut s = 3u64;
    let mut want = Vec::new();
    for _ in 0..2 {
        s = s.wrapping_mul(6364136223846793005).wrapping_add(1);
        want.push(Ternary::random(&mut s));
    }
    assert_eq!(seed, s);
    assert_eq!(chrom.genes[0].allele, want[0]);
    assert_eq!(chrom.genes[1].allele, want[1]);
    assert_eq!(chrom.genes[1].name, "b");
    assert_eq!(chrom.genes[1].dominance, 2);
    assert_eq!(chrom.id, "c");
}

#[test]
fn genome_mutate_equals_chromosome_mutations_in_order() {
    let c1 = Chromosome::new("c1", vec![Gene::new("a", Ternary::Pos, 1), Gene::new("b", Ternary::Neg, 2)]);
    let c2 = Chromosome::new("c2", vec![Gene::new("c", Ternary::Zero, 3)]);
    let mut genome = Genome::new(vec![c1.clone(), c2.clone()]);
    let mut seed = 1234u64;
    genome.mutate(400, &mut seed);
    let (mut d1, mut d2) = (c1, c2);
    let mut s = 1234u64;
    d1.mutate(400, &mut s);
    d2.mutate(400, &mut s);
    assert_eq!(seed, s);
    assert_eq!(genome.chromosomes[0].genes, d1.genes);
    assert_eq!(genome.chromosomes[1].genes, d2.genes);
}

#[test]
fn genome_fitness_and_count() {
    let genome = Genome::new(vec![
        Chromosome::new("c1", vec![Gene::new("a", Ternary::Pos, 1), Gene::new("b", Ternary::Pos, 1)]),
        Chromosome::new("c2", vec![]),
        Chromosome::new("c3", vec![Gene::new("c", Ternary::Pos, 1), Gene::new("d", Ternary::Neg, 1)]),
    ]);
    assert_eq!(genome.fitness(), 2);
    assert_eq!(genome.gene_count(), 4);
    assert_eq!(genome.gene_count(), genome.alleles().len());
}

#[test]
fn mutation_rate_adapt_bounds_and_saturation() {
    let mr = MutationRate::new(50);
    assert_eq!((mr.min_rate, mr.max_rate), (1, 500));
    let mut high = MutationRate { rate_per_thousand: u32::MAX - 3, min_rate: 0, max_rate: u32::MAX };
    high.adapt(false);
    assert_eq!(high.rate_per_thousand, u32::MAX); // saturating add
    let mut low = MutationRate { rate_per_thousand: 2, min_rate: 0, max_rate: 10 };
    low.adapt(true);
    assert_eq!(low.rate_per_thousand, 0); // saturating sub
    let mut out = MutationRate { rate_per_thousand: 900, min_rate: 1, max_rate: 500 };
    out.adapt(true);
    assert_eq!(out.rate_per_thousand, 500); // clamped back into range
    let mut raise = MutationRate { rate_per_thousand: 100, min_rate: 1, max_rate: 500 };
    raise.adapt(false);
    assert!(raise.rate_per_thousand >= 100);
    raise.adapt(true);
    assert!(raise.rate_per_thousand <= 110);
}

#[test]
fn expression_from_genome_lists_traits_in_order() {
    let genome = Genome::new(vec![
        Chromosome::new("c1", vec![Gene::new("a", Ternary::Pos, 1)]),
        Chromosome::new("c2", vec![Gene::new("b", Ternary::Neg, 1), Gene::new("a", Ternary::Zero, 4)]),
    ]);
    let expr = GeneExpression::from_genome(&genome);
    assert_eq!(
        expr.traits,
        vec![
            ("a".to_string(), Ternary::Pos),
            ("b".to_string(), Ternary::Neg),
            ("a".to_string(), Ternary::Zero)
        ]
    );
    assert_eq!(expr.trait_value("a"), Some(Ternary::Pos)); // first one wins
    assert_eq!(expr.traits.len(), genome.gene_count());
}

#[test]
fn expression_from_parents_all_cases() {
    let a = Chromosome::new(
        "a",
        vec![
            Gene::new("tie", Ternary::Pos, 2),
            Gene::new("only_a", Ternary::Neg, 0),
            Gene::new("weak", Ternary::Zero, 1),
        ],
    );
    let b = Chromosome::new(
        "b",
        vec![
            Gene::new("weak", Ternary::Pos, 9),
            Gene::new("only_b", Ternary::Neg, 4),
            Gene::new("tie", Ternary::Neg, 2),
        ],
    );
    let expr = GeneExpression::from_parents(&a, &b);
    assert_eq!(
        expr.traits,
        vec![
            ("tie".to_string(), Ternary::Pos),
            ("only_a".to_string(), Ternary::Neg),
            ("weak".to_string(), Ternary::Pos),
            ("only_b".to_string(), Ternary::Neg)
        ]
    );
    assert_eq!(expr.trait_value("missing"), None);
}

#[test]
fn single_point_with_unequal_lengths_pads_with_zero() {
    let a = Genome::new(vec![Chromosome::new(
        "ca",
        vec![
            Gene::new("a", Ternary::Pos, 1),
            Gene::new("b", Ternary::Pos, 2),
            Gene::new("c", Ternary::Pos, 3),
        ],
    )]);
    let b = Genome::new(vec![Chromosome::new("cb", vec![Gene::new("x", Ternary::Neg, 7)])]);
    // point 2 is cut to 1, the length of b
    let (c1, c2) = Crossover::single_point(&a, &b, 2);
    // child1 = a[..1] + b[1..] = [Pos], padded to a's three genes
    assert_eq!(c1.alleles(), vec![Ternary::Pos, Ternary::Zero, Ternary::Zero]);
    // child2 = b[..1] + a[1..] = [Neg, Pos, Pos], cut to b's one gene
    assert_eq!(c2.alleles(), vec![Ternary::Neg]);
    assert_eq!(c1.chromosomes[0].id, "ca");
    assert_eq!(c1.chromosomes[0].genes[2].name, "c");
    assert_eq!(c1.chromosomes[0].genes[2].dominance, 3);
    assert_eq!(c2.chromosomes[0].genes[0].name, "x");
}

#[test]
fn single_point_at_zero_and_past_end() {
    let a = Genome::new(vec![Chromosome::new(
        "c",
        vec![Gene::new("a", Ternary::Pos, 1), Gene::new("b", Ternary::Zero, 1)],
    )]);
    let b = Genome::new(vec![Chromosome::new(
        "c",
        vec![Gene::new("a", Ternary::Neg, 1), Gene::new("b", Ternary::Neg, 1)],
    )]);
    let (c1, c2) = Crossover::single_point(&a, &b, 0);
    assert_eq!(c1.alleles(), b.alleles());
    assert_eq!(c2.alleles(), a.alleles());
    let (d1, d2) = Crossover::single_point(&a, &b, 99);
    assert_eq!(d1.alleles(), a.alleles());
    assert_eq!(d2.alleles(), b.alleles());
    assert_eq!(c1.fitness() + c2.fitness(), a.fitness() + b.fitness());
}

#[test]
fn uniform_follows_generator_parity() {
    let a = Genome::new(vec![Chromosome::new(
        "c",
        vec![Gene::new("a", Ternary::Pos, 1), Gene::new("b", Ternary::Zero, 1), Gene::new("c", Ternary::Pos, 1)],
    )]);
    let b = Genome::new(vec![Chromosome::new(
        "c",
        vec![Gene::new("a", Ternary::Neg, 1), Gene::new("b", Ternary::Neg, 1)],
    )]);
    let mut seed = 8u64;
    let (c1, c2) = Crossover::uniform(&a, &b, &mut seed);
    let fa = a.alleles();
    let fb = b.alleles();
    let mut s = 8u64;
    let mut w1 = Vec::new();
    let mut w2 = Vec::new();
    for i in 0..2 {
        s = s.wrapping_mul(6364136223846793005).wrapping_add(1);
        if s % 2 == 0 {
            w1.push(fa[i]);
            w2.push(fb[i]);
        } else {
            w1.push(fb[i]);
            w2.push(fa[i]);
        }
    }
    assert_eq!(seed, s); // two steps: the shorter parent has two genes
    w1.push(Ternary::Zero); // a has a third gene, filled with Zero
    assert_eq!(c1.alleles(), w1);
    assert_eq!(c2.alleles(), w2);
}

#[test]
fn uniform_keeps_total_fitness_for_equal_lengths() {
    let a = Genome::new(vec![
        Chromosome::new("c1", vec![Gene::new("a", Ternary::Pos, 1), Gene::new("b", Ternary::Zero, 1)]),
        Chromosome::new("c2", vec![Gene::new("c", Ternary::Pos, 1)]),
    ]);
    let b = Genome::new(vec![Chromosome::new(
        "d",
        vec![Gene::new("x", Ternary::Neg, 1), Gene::new("y", Ternary::Pos, 1), Gene::new("z", Ternary::Neg, 1)],
    )]);
    for start in [0u64, 1, 2, 77, 1 << 40] {
        let mut seed = start;
        let (c1, c2) = Crossover::uniform(&a, &b, &mut seed);
        assert_eq!(c1.fitness() + c2.fitness(), a.fitness() + b.fitness());
        assert_eq!(c1.chromosomes.len(), 2);
        assert_eq!(c2.chromosomes[0].id, "d");
    }
}
