//! Capability contracts: the abstractions every pluggable strategy works with.

use vstd::prelude::*;

verus! {

/// A value that converts to a scalar weight, used by weighted selection.
pub trait AsScalar {
    /// The scalar this value stands for.
    spec fn as_scalar_spec(&self) -> u64;

    /// Returns the scalar this value stands for.
    fn as_scalar(&self) -> (s: u64)
        ensures
            s == self.as_scalar_spec(),
    ;
}

impl AsScalar for u64 {
    open spec fn as_scalar_spec(&self) -> u64 {
        *self
    }

    fn as_scalar(&self) -> u64 {
        *self
    }
}

/// A genome paired with its computed fitness; immutable once created.
pub struct EvaluatedIndividual<G> {
    /// The genome.
    pub genome: G,
    /// The fitness computed for the genome.
    pub fitness: u64,
}

impl<G> AsScalar for EvaluatedIndividual<G> {
    open spec fn as_scalar_spec(&self) -> u64 {
        self.fitness
    }

    fn as_scalar(&self) -> u64 {
        self.fitness
    }
}

/// Whether a genome (as its sequence of genes) occurs in an evaluated pool.
pub open spec fn genome_in_pool<V>(pool: Seq<EvaluatedIndividual<Vec<V>>>, genes: Seq<V>) -> bool {
    exists|i: int| 0 <= i < pool.len() && genes == #[trigger] pool[i].genome@
}

/// Copies a genome gene by gene.
pub fn copy_genome<V: Copy>(genome: &Vec<V>) -> (r: Vec<V>)
    ensures
        r@ == genome@,
{
    let mut r: Vec<V> = Vec::new();
    let mut i: usize = 0;
    while i < genome.len()
        invariant
            i <= genome@.len(),
            r@ == genome@.take(i as int),
        decreases genome@.len() - i,
    {
        r.push(genome[i]);
        proof {
            assert(r@ =~= genome@.take(i + 1));
        }
        i = i + 1;
    }
    proof {
        assert(genome@.take(genome@.len() as int) =~= genome@);
    }
    r
}

/// A fitness evaluation: a pure function from genome to a bounded scalar
/// fitness, with the average over a set of fitness values.
pub trait FitnessEvaluation<G> {
    /// The fitness this evaluation assigns to a genome.
    spec fn fitness_spec(&self, genome: G) -> u64;

    /// The lowest fitness this evaluation can assign.
    spec fn lowest_spec(&self) -> u64;

    /// The highest fitness this evaluation can assign.
    spec fn highest_spec(&self) -> u64;

    /// The average this evaluation computes for a sequence of fitness values.
    spec fn average_spec(&self, values: Seq<u64>) -> u64;

    /// Evaluates one genome; a pure function of the genome, always inside the
    /// declared fitness bounds.
    fn fitness_of(&self, genome: &G) -> (f: u64)
        ensures
            f == self.fitness_spec(*genome),
            self.lowest_spec() <= f <= self.highest_spec(),
    ;

    /// The average of the given fitness values.
    fn average(&self, values: &Vec<u64>) -> (a: u64)
        requires
            values@.len() > 0,
        ensures
            a == self.average_spec(values@),
    ;

    /// The highest fitness any genome can reach under this evaluation.
    fn highest_possible_fitness(&self) -> (h: u64)
        ensures
            h == self.highest_spec(),
    ;

    /// The lowest fitness any genome can be assigned under this evaluation.
    fn lowest_possible_fitness(&self) -> (l: u64)
        ensures
            l == self.lowest_spec(),
    ;
}

/// How many of the first `n` genes equal the target gene.
pub open spec fn count_matches(genes: Seq<u64>, target: u64, n: int) -> int
    decreases n,
{
    if n <= 0 {
        0
    } else {
        count_matches(genes, target, n - 1) + if genes[n - 1] == target {
            1int
        } else {
            0int
        }
    }
}

/// A match count never exceeds the number of genes counted.
pub proof fn lemma_count_matches_bounded(genes: Seq<u64>, target: u64, n: int)
    requires
        n >= 0,
    ensures
        0 <= count_matches(genes, target, n) <= n,
    decreases n,
{
    if n > 0 {
        lemma_count_matches_bounded(genes, target, n - 1);
    }
}

/// A simple fitness evaluation over `u64`-encoded genomes: the fitness of a
/// genome is the number of its genes equal to a target gene, counted over at
/// most the configured genome length; the highest possible fitness is the
/// configured genome length itself. The average of a set of fitness values is
/// their integer mean.
#[derive(Clone, Copy)]
pub struct GeneMatchEvaluator {
    /// The gene value that scores.
    pub target: u64,
    /// The genome length fitness is counted over.
    pub genome_length: usize,
}

impl FitnessEvaluation<Vec<u64>> for GeneMatchEvaluator {
    open spec fn fitness_spec(&self, genome: Vec<u64>) -> u64 {
        count_matches(
            genome@,
            self.target,
            if genome@.len() <= self.genome_length {
                genome@.len() as int
            } else {
                self.genome_length as int
            },
        ) as u64
    }

    open spec fn lowest_spec(&self) -> u64 {
        0
    }

    open spec fn highest_spec(&self) -> u64 {
        self.genome_length as u64
    }

    open spec fn average_spec(&self, values: Seq<u64>) -> u64 {
        (crate::random::scalar_prefix_sum(values, values.len() as int) / values.len() as int) as u64
    }

    fn fitness_of(&self, genome: &Vec<u64>) -> (f: u64) {
        let n = if genome.len() <= self.genome_length {
            genome.len()
        } else {
            self.genome_length
        };
        let mut count: u64 = 0;
        let mut i: usize = 0;
        while i < n
            invariant
                n <= genome@.len(),
                n <= self.genome_length,
                i <= n,
                count == count_matches(genome@, self.target, i as int),
                count <= i,
            decreases n - i,
        {
            proof {
                lemma_count_matches_bounded(genome@, self.target, i + 1);
            }
            if genome[i] == self.target {
                count = count + 1;
            }
            i = i + 1;
        }
        count
    }

    fn average(&self, values: &Vec<u64>) -> (a: u64) {
        let len = values.len();
        let mut acc: u128 = 0;
        let mut i: usize = 0;
        while i < len
            invariant
                len == values@.len(),
                0 < len,
                i <= len,
                acc == crate::random::scalar_prefix_sum(values@, i as int),
                acc <= (i as int) * (u64::MAX as int),
            decreases len - i,
        {
            let v = values[i];
            proof {
                assert((i as int) * (u64::MAX as int) + (u64::MAX as int) == (i as int + 1) * (
                u64::MAX as int)) by (nonlinear_arith);
                assert((i as int + 1) * (u64::MAX as int) <= u128::MAX) by (nonlinear_arith)
                    requires
                        0 <= i + 1 <= u64::MAX,
                ;
            }
            acc = acc + (v as u128);
            i = i + 1;
        }
        let wide = acc / (len as u128);
        proof {
            let s = crate::random::scalar_prefix_sum(values@, len as int) as int;
            let l = len as int;
            let m = u64::MAX as int;
            assert(s <= l * m) by {
                crate::random::lemma_scalar_prefix_sum_bounded(values@, l, m);
            }
            vstd::arithmetic::div_mod::lemma_div_is_ordered(s, l * m, l);
            assert(m * l == l * m) by (nonlinear_arith);
            vstd::arithmetic::div_mod::lemma_div_by_multiple(m, l);
        }
        wide as u64
    }

    fn highest_possible_fitness(&self) -> u64 {
        self.genome_length as u64
    }

    fn lowest_possible_fitness(&self) -> u64 {
        0
    }
}

/// A population generator: synthesizes one random genome per call.
pub trait PopulationGenerator<G> {
    /// What every generated genome satisfies.
    spec fn generated_ok(&self, genome: G) -> bool;

    /// Generates one genome.
    fn generate_genotype(&self, rng: &mut crate::random::RandomSource) -> (g: G)
        ensures
            self.generated_ok(g),
    ;
}

/// Generates genomes of a fixed length with genes drawn uniformly from an
/// inclusive-exclusive value range.
#[derive(Clone, Copy)]
pub struct UniformGenomeGenerator {
    /// The length of every generated genome.
    pub genome_length: usize,
    /// The smallest gene value generated.
    pub min_value: u64,
    /// The bound above every generated gene value; when the range is empty
    /// every gene is the smallest value.
    pub max_value: u64,
}

impl PopulationGenerator<Vec<u64>> for UniformGenomeGenerator {
    open spec fn generated_ok(&self, genome: Vec<u64>) -> bool {
        &&& genome@.len() == self.genome_length
        &&& forall|i: int| 0 <= i < genome@.len() ==> self.min_value <= #[trigger] genome@[i]
    }

    fn generate_genotype(&self, rng: &mut crate::random::RandomSource) -> (g: Vec<u64>) {
        let mut g: Vec<u64> = Vec::new();
        let mut i: usize = 0;
        while i < self.genome_length
            invariant
                i <= self.genome_length,
                g@.len() == i,
                forall|j: int| 0 <= j < g@.len() ==> self.min_value <= #[trigger] g@[j],
            decreases self.genome_length - i,
        {
            let gene = if self.min_value < self.max_value {
                crate::random::draw_below(rng, self.min_value, self.max_value)
            } else {
                self.min_value
            };
            g.push(gene);
            i = i + 1;
        }
        g
    }
}

/// Builds an initial population by calling the generator once per slot.
pub fn generate_population<G, P: PopulationGenerator<G>>(
    generator: &P,
    size: usize,
    rng: &mut crate::random::RandomSource,
) -> (population: Vec<G>)
    ensures
        population@.len() == size,
{
    let mut population: Vec<G> = Vec::new();
    let mut i: usize = 0;
    while i < size
        invariant
            population@.len() == i,
            i <= size,
        decreases size - i,
    {
        population.push(generator.generate_genotype(rng));
        i = i + 1;
    }
    population
}

} // verus!
