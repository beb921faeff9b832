use evo_core::random::MAX_SAMPLE_ATTEMPTS;
use evo_core::random::RandomSource;
use evo_core::random::WeightedDistribution;
use evo_core::random::checked_cut_points_from_range;
use evo_core::random::random_cut_points;
use evo_core::random::random_cut_points_from_range;
use evo_core::random::random_index;
use evo_core::random::random_index_from_range;
use evo_core::random::random_n_cut_points;
use evo_core::random::random_probability;
use evo_core::random::weighted_select;
use evo_core::RATE_SCALE;

#[test]
fn random_cut_points_from_range_0_to_3() {
    let mut rng = RandomSource::from_seed(7);
    assert_eq!(checked_cut_points_from_range(&mut rng, 0, 3), None);
}

#[test]
fn random_cut_points_from_range_4_to_4() {
    let mut rng = RandomSource::from_seed(7);
    assert_eq!(checked_cut_points_from_range(&mut rng, 4, 4), None);
}

#[test]
fn checked_cut_points_accepts_admissible_ranges() {
    let mut rng = RandomSource::from_seed(11);
    let r = checked_cut_points_from_range(&mut rng, 0, 4);
    assert!(r.is_some());
    let r = checked_cut_points_from_range(&mut rng, 10, 14);
    assert!(r.is_some());
}

#[test]
fn cut_points_from_range_satisfy_bounds() {
    let mut rng = RandomSource::from_seed(1);
    for min in 0usize..8 {
        for span in 4usize..20 {
            let max = min + span;
            for _ in 0..50 {
                let (a, b) = random_cut_points_from_range(&mut rng, min, max);
                assert!(a >= min);
                assert!(a < b);
                assert!(b < max);
                assert!(b - a < max - min - 2);
            }
        }
    }
}

#[test]
fn cut_points_over_length_satisfy_bounds() {
    let mut rng = RandomSource::from_seed(2);
    for _ in 0..200 {
        let (a, b) = random_cut_points(&mut rng, 10);
        assert!(a < b);
        assert!(b < 10);
        assert!(b - a < 8);
    }
}

#[test]
fn random_index_stays_in_range() {
    let mut rng = RandomSource::from_seed(3);
    for _ in 0..200 {
        let i = random_index(&mut rng, 7);
        assert!(i < 7);
        let j = random_index_from_range(&mut rng, 5, 9);
        assert!(j >= 5 && j < 9);
    }
}

#[test]
fn random_probability_stays_under_one() {
    let mut rng = RandomSource::from_seed(4);
    for _ in 0..200 {
        assert!(random_probability(&mut rng) < RATE_SCALE);
    }
}

#[test]
fn n_cut_points_single_and_pair() {
    let mut rng = RandomSource::from_seed(5);
    let one = random_n_cut_points(&mut rng, 1, 6);
    assert_eq!(one.len(), 1);
    assert!(one[0] < 6);
    let two = random_n_cut_points(&mut rng, 2, 6);
    assert_eq!(two.len(), 2);
    assert!(two[0] < two[1]);
    assert!(two[1] < 6);
    assert!(two[1] - two[0] < 4);
}

#[test]
fn n_cut_points_walks_windows() {
    let mut rng = RandomSource::from_seed(6);
    for _ in 0..50 {
        let cuts = random_n_cut_points(&mut rng, 5, 20);
        assert_eq!(cuts.len(), 5);
        for w in cuts.windows(2) {
            assert!(w[0] <= w[1]);
        }
        for c in &cuts {
            assert!(*c > 0 && *c < 20);
        }
    }
}

#[test]
fn sample_attempt_bound_is_positive() {
    assert!(MAX_SAMPLE_ATTEMPTS > 0);
}

#[test]
fn weighted_select_walks_cumulative_weights() {
    let weights = vec![200u64, 150, 600, 50];
    // the pointer lands in the first cumulative band that reaches it
    assert_eq!(weighted_select(0, &weights), 0);
    assert_eq!(weighted_select(200, &weights), 0);
    assert_eq!(weighted_select(201, &weights), 1);
    assert_eq!(weighted_select(350, &weights), 1);
    assert_eq!(weighted_select(351, &weights), 2);
    assert_eq!(weighted_select(950, &weights), 2);
    assert_eq!(weighted_select(951, &weights), 3);
    assert_eq!(weighted_select(1000, &weights), 3);
    // a pointer past the sum is clamped to the last index
    assert_eq!(weighted_select(1001, &weights), 3);
    assert_eq!(weighted_select(u64::MAX, &weights), 3);
}

#[test]
fn weighted_distribution_reports_sum_and_values() {
    let weights = vec![200u64, 150, 600, 50];
    let wd = WeightedDistribution::from_scalar_values(&weights);
    assert_eq!(wd.sum(), 1000);
    assert_eq!(*wd.value(2), 600);
}

#[test]
fn weighted_distribution_select() {
    let mut rng = RandomSource::from_seed(42);

    let weights = vec![200u64, 150, 600, 50];
    let n_sum = 1000usize;

    let weighted_distribution = WeightedDistribution::from_scalar_values(&weights);
    assert_eq!(weighted_distribution.sum(), 1000);

    let mut counter = vec![0u64, 0, 0, 0];
    for _ in 0..n_sum {
        let pointer = random_index_from_range(&mut rng, 0, n_sum) as u64;
        let index = weighted_distribution.select(pointer);
        counter[index] += 1;
    }

    // recorded baseline for the documented seed: close to the weights
    assert_eq!(counter, vec![192, 148, 616, 44]);
}
