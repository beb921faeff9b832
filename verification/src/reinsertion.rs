//! Elitist reinsertion: merges offspring and surviving parents into the next
//! generation of exactly the configured population size, always carrying the
//! best individual over.

use vstd::prelude::*;
use vstd::assert_multisets_equal;
use crate::RATE_SCALE;
use crate::valid_rate;
use crate::genetic::EvaluatedIndividual;
use crate::genetic::copy_genome;
use crate::operator::GeneticOperator;
use crate::operator::ReinsertionOp;
use crate::random::RandomSource;

verus! {

/// Whether `e` is (genome and fitness) a member of the evaluated pool.
pub open spec fn individual_in_pool<V>(
    pool: Seq<EvaluatedIndividual<Vec<V>>>,
    e: EvaluatedIndividual<Vec<V>>,
) -> bool {
    exists|i: int|
        0 <= i < pool.len() && e.genome@ == (#[trigger] pool[i]).genome@ && e.fitness
            == pool[i].fitness
}

/// Whether `f` is at least the fitness of every member of the pool.
pub open spec fn fitness_dominates<V>(pool: Seq<EvaluatedIndividual<Vec<V>>>, f: u64) -> bool {
    forall|i: int| 0 <= i < pool.len() ==> (#[trigger] pool[i]).fitness <= f
}

/// The index of a fittest member of the pool.
fn index_of_best<V>(pool: &Vec<EvaluatedIndividual<Vec<V>>>) -> (best: usize)
    requires
        pool@.len() > 0,
    ensures
        best < pool@.len(),
        fitness_dominates(pool@, pool@[best as int].fitness),
{
    let mut best: usize = 0;
    let mut i: usize = 1;
    while i < pool.len()
        invariant
            pool@.len() > 0,
            best < i,
            i <= pool@.len(),
            forall|j: int| 0 <= j < i ==> (#[trigger] pool@[j]).fitness <= pool@[best as int].fitness,
        decreases pool@.len() - i,
    {
        if pool[i].fitness > pool[best].fitness {
            best = i;
        }
        i = i + 1;
    }
    best
}

/// The pool's indices ordered by descending fitness (insertion sort, stable:
/// ties keep their original order).
pub(crate) fn sort_indices_by_fitness_desc<V>(
    pool: &Vec<EvaluatedIndividual<Vec<V>>>,
) -> (idxs: Vec<usize>)
    ensures
        idxs@.len() == pool@.len(),
        forall|i: int| 0 <= i < idxs@.len() ==> (#[trigger] idxs@[i]) < pool@.len(),
        forall|a: int, b: int|
            0 <= a <= b < idxs@.len() ==> pool@[#[trigger] idxs@[a] as int].fitness
                >= pool@[#[trigger] idxs@[b] as int].fitness,
        forall|v: usize| v < pool@.len() ==> #[trigger] idxs@.contains(v),
{
    let n = pool.len();
    let mut idxs: Vec<usize> = Vec::new();
    let mut k: usize = 0;
    while k < n
        invariant
            idxs@.len() == k,
            k <= n,
            forall|i: int| 0 <= i < k ==> (#[trigger] idxs@[i]) == i,
        decreases n - k,
    {
        idxs.push(k);
        k = k + 1;
    }
    let ghost init = idxs@;
    if n == 0 {
        return idxs;
    }
    let mut i: usize = 1;
    while i < n
        invariant
            n == pool@.len(),
            idxs@.len() == n,
            1 <= i <= n,
            init.len() == n,
            forall|p: int| 0 <= p < n ==> (#[trigger] init[p]) == p,
            idxs@.to_multiset() == init.to_multiset(),
            forall|p: int| 0 <= p < n ==> (#[trigger] idxs@[p]) < n,
            forall|a: int, b: int|
                0 <= a <= b < i ==> pool@[#[trigger] idxs@[a] as int].fitness
                    >= pool@[#[trigger] idxs@[b] as int].fitness,
        decreases n - i,
    {
        let mut j: usize = i;
        while j > 0 && pool[idxs[j - 1]].fitness < pool[idxs[j]].fitness
            invariant
                n == pool@.len(),
                idxs@.len() == n,
                j <= i < n,
                init.len() == n,
                idxs@.to_multiset() == init.to_multiset(),
                forall|p: int| 0 <= p < n ==> (#[trigger] idxs@[p]) < n,
                forall|a: int, b: int|
                    0 <= a <= b <= i && a != j && b != j ==> pool@[#[trigger] idxs@[a] as int].fitness
                        >= pool@[#[trigger] idxs@[b] as int].fitness,
                forall|b: int|
                    j < b <= i ==> pool@[idxs@[j as int] as int].fitness
                        >= pool@[#[trigger] idxs@[b] as int].fitness,
            decreases j,
        {
            let ghost before = idxs@;
            let t = idxs[j - 1];
            let u = idxs[j];
            idxs[j - 1] = u;
            idxs[j] = t;
            proof {
                broadcast use vstd::seq_lib::group_to_multiset_ensures;

                let mid = before.update(j - 1, u);
                assert(before.contains(before[j - 1]));
                assert(mid.to_multiset() == before.to_multiset().insert(u).remove(t));
                assert(mid[j as int] == before[j as int]);
                assert(idxs@.to_multiset() == mid.to_multiset().insert(t).remove(u));
                assert_multisets_equal!(idxs@.to_multiset(), before.to_multiset());
            }
            j = j - 1;
        }
        i = i + 1;
    }
    proof {
        broadcast use vstd::seq_lib::group_to_multiset_ensures;

        assert forall|v: usize| v < pool@.len() implies #[trigger] idxs@.contains(v) by {
            assert(init[v as int] == v);
            assert(init.contains(v));
            assert(init.to_multiset().count(v) > 0);
            assert(idxs@.to_multiset().count(v) > 0);
        }
    }
    idxs
}

/// Elitist reinsertion: the next generation always contains a fittest
/// individual of the union of parents and offspring, takes up to
/// `reinsertion_ratio` of its slots from the offspring, and backfills the
/// shortfall from the surviving parents in descending fitness order.
#[derive(Clone, Copy)]
pub struct ElitistReinserter {
    /// Fraction of the next generation sourced from offspring, scaled by
    /// [`RATE_SCALE`].
    pub reinsertion_ratio: u64,
}

impl ElitistReinserter {
    /// Builds the reinserter with the given offspring fraction.
    pub fn new(reinsertion_ratio: u64) -> (r: Self)
        requires
            valid_rate(reinsertion_ratio),
        ensures
            r.reinsertion_ratio == reinsertion_ratio,
    {
        ElitistReinserter { reinsertion_ratio }
    }
}

impl GeneticOperator for ElitistReinserter {
    fn name(&self) -> String {
        "Elitist-Reinserter".to_string()
    }
}

impl<V: Copy> ReinsertionOp<Vec<V>> for ElitistReinserter {
    open spec fn reinsertion_wf(&self) -> bool {
        valid_rate(self.reinsertion_ratio)
    }

    open spec fn reinsert_requires(
        &self,
        parents: Seq<EvaluatedIndividual<Vec<V>>>,
        offspring: Seq<EvaluatedIndividual<Vec<V>>>,
    ) -> bool {
        true
    }

    open spec fn next_generation_ok(
        &self,
        parents: Seq<EvaluatedIndividual<Vec<V>>>,
        offspring: Seq<EvaluatedIndividual<Vec<V>>>,
        next: Seq<EvaluatedIndividual<Vec<V>>>,
    ) -> bool {
        &&& forall|i: int|
            0 <= i < next.len() ==> individual_in_pool(parents, #[trigger] next[i])
                || individual_in_pool(offspring, next[i])
        &&& next.len() > 0 ==> exists|i: int|
            0 <= i < next.len() && fitness_dominates(parents, (#[trigger] next[i]).fitness)
                && fitness_dominates(offspring, next[i].fitness)
    }

    fn reinsert(
        &self,
        parents: &Vec<EvaluatedIndividual<Vec<V>>>,
        offspring: &Vec<EvaluatedIndividual<Vec<V>>>,
        size: usize,
        _rng: &mut RandomSource,
    ) -> (next: Vec<EvaluatedIndividual<Vec<V>>>) {
        let mut next: Vec<EvaluatedIndividual<Vec<V>>> = Vec::new();
        if size == 0 {
            return next;
        }
        // the single best individual of parents and offspring survives
        let best_parent = index_of_best(parents);
        let mut best = EvaluatedIndividual {
            genome: copy_genome(&parents[best_parent].genome),
            fitness: parents[best_parent].fitness,
        };
        proof {
            assert(individual_in_pool(parents@, best));
        }
        if offspring.len() > 0 {
            let best_child = index_of_best(offspring);
            if offspring[best_child].fitness > best.fitness {
                best = EvaluatedIndividual {
                    genome: copy_genome(&offspring[best_child].genome),
                    fitness: offspring[best_child].fitness,
                };
                proof {
                    assert(individual_in_pool(offspring@, best));
                    assert forall|i: int| 0 <= i < parents@.len() implies (
                    #[trigger] parents@[i]).fitness <= best.fitness by {
                        assert(parents@[i].fitness <= parents@[best_parent as int].fitness);
                    }
                }
            } else {
                proof {
                    assert forall|i: int| 0 <= i < offspring@.len() implies (
                    #[trigger] offspring@[i]).fitness <= best.fitness by {
                        assert(offspring@[i].fitness <= offspring@[best_child as int].fitness);
                    }
                }
            }
        }
        proof {
            assert(fitness_dominates(parents@, best.fitness));
            assert(fitness_dominates(offspring@, best.fitness));
        }
        let ghost champion = best;
        next.push(best);
        proof {
            assert(next@[0] == champion);
            assert(self.next_generation_ok(parents@, offspring@, next@));
        }
        // up to `reinsertion_ratio` of the population comes from offspring
        proof {
            let s = size as int;
            let r = self.reinsertion_ratio as int;
            let sc = RATE_SCALE as int;
            assert(s * r <= s * sc) by (nonlinear_arith)
                requires
                    0 <= s,
                    0 <= r <= sc,
            ;
            assert(s * r + sc / 2 < (s + 1) * sc) by (nonlinear_arith)
                requires
                    s * r <= s * sc,
                    sc > 1,
            ;
        }
        let wide = ((size as u128) * (self.reinsertion_ratio as u128) + (RATE_SCALE as u128) / 2)
            / (RATE_SCALE as u128);
        proof {
            let s = size as int;
            let r = self.reinsertion_ratio as int;
            let sc = RATE_SCALE as int;
            assert((s * r + sc / 2) / sc <= s) by (nonlinear_arith)
                requires
                    0 <= s,
                    sc > 0,
                    0 <= s * r + sc / 2,
                    s * r + sc / 2 < (s + 1) * sc,
            ;
        }
        let slots = wide as usize;
        let mut take = if slots < offspring.len() {
            slots
        } else {
            offspring.len()
        };
        if take > size - 1 {
            take = size - 1;
        }
        let mut o: usize = 0;
        while o < take
            invariant
                take <= offspring@.len(),
                o <= take,
                next@.len() == 1 + o,
                self.next_generation_ok(parents@, offspring@, next@),
            decreases take - o,
        {
            let e = EvaluatedIndividual {
                genome: copy_genome(&offspring[o].genome),
                fitness: offspring[o].fitness,
            };
            let ghost ev = e;
            let ghost prev = next@;
            next.push(e);
            proof {
                assert(ev.genome@ == offspring@[o as int].genome@);
                assert(individual_in_pool(offspring@, ev));
                assert forall|i: int| 0 <= i < next@.len() implies individual_in_pool(
                    parents@,
                    #[trigger] next@[i],
                ) || individual_in_pool(offspring@, next@[i]) by {
                    if i < prev.len() {
                        assert(next@[i] == prev[i]);
                    } else {
                        assert(next@[i] == ev);
                    }
                }
                let w = choose|i: int|
                    0 <= i < prev.len() && fitness_dominates(
                        parents@,
                        (#[trigger] prev[i]).fitness,
                    ) && fitness_dominates(offspring@, prev[i].fitness);
                assert(next@[w] == prev[w]);
            }
            o = o + 1;
        }
        // backfill the shortfall from the parents, fittest first
        let idxs = sort_indices_by_fitness_desc(parents);
        let needed = size - next.len();
        let mut b: usize = 0;
        while b < needed
            invariant
                needed <= parents@.len(),
                1 <= size - needed,
                idxs@.len() == parents@.len(),
                forall|i: int| 0 <= i < idxs@.len() ==> (#[trigger] idxs@[i]) < parents@.len(),
                b <= needed,
                next@.len() == size - needed + b,
                self.next_generation_ok(parents@, offspring@, next@),
            decreases needed - b,
        {
            let pi = idxs[b];
            let e = EvaluatedIndividual {
                genome: copy_genome(&parents[pi].genome),
                fitness: parents[pi].fitness,
            };
            let ghost ev = e;
            let ghost prev = next@;
            next.push(e);
            proof {
                assert(ev.genome@ == parents@[pi as int].genome@);
                assert(individual_in_pool(parents@, ev));
                assert forall|i: int| 0 <= i < next@.len() implies individual_in_pool(
                    parents@,
                    #[trigger] next@[i],
                ) || individual_in_pool(offspring@, next@[i]) by {
                    if i < prev.len() {
                        assert(next@[i] == prev[i]);
                    } else {
                        assert(next@[i] == ev);
                    }
                }
                let w = choose|i: int|
                    0 <= i < prev.len() && fitness_dominates(
                        parents@,
                        (#[trigger] prev[i]).fitness,
                    ) && fitness_dominates(offspring@, prev[i].fitness);
                assert(next@[w] == prev[w]);
            }
            b = b + 1;
        }
        next
    }
}

} // verus!
