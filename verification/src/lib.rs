//! Genetic encoding and expression for evolving ternary agent populations.
//!
//! Genomes are made of chromosomes, chromosomes of genes, and every gene
//! carries a balanced ternary allele together with a dominance score.
pub mod ternary;
pub mod gene;
pub mod genome;
pub mod mutation_rate;
pub mod expression;
pub mod crossover;

pub use ternary::Ternary;
pub use gene::{Chromosome, Gene};
pub use genome::Genome;
pub use mutation_rate::MutationRate;
pub use expression::GeneExpression;
pub use crossover::Crossover;
