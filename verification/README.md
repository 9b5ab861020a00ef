# ternary_genome

Genetic encoding and expression for evolving ternary agent populations. Every
operation under `src/` is proved against a mathematical model by Verus; the one
floating-point view, in `app/`, is not.

- `src/ternary.rs`: `Ternary` values, their integer conversion, and the seeded
  generator (`lcg_next`, `lcg_iter`) that every random draw goes through.
- `src/gene.rs`: `Gene`, `Chromosome`, name lookup and point mutation
  (`mutate_alleles` models mutation of an allele sequence).
- `src/genome.rs`: `Genome`, its flat view (`flat_genes`), gene count, fitness
  (`allele_sum`) and mutation.
- `src/mutation_rate.rs`: the adaptive, clamped `MutationRate`.
- `src/expression.rs`: `GeneExpression`, trait lookup and dominance between parents.
- `src/crossover.rs`: single-point and uniform `Crossover`, which keep the
  templates' structure and only move alleles.
- `app/lib.rs`: the floating-point `fraction` of a mutation rate.
