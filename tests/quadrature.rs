use landau::quadrature::{pair_count, step_count, BASE_STEPS, MAX_STEPS};

#[test]
fn narrow_resolution_keeps_base_steps() {
    assert_eq!(step_count(false, 0), 100);
    assert_eq!(step_count(false, 7), BASE_STEPS);
    assert_eq!(step_count(false, u32::MAX), 100);
}

#[test]
fn broad_resolution_scales_steps() {
    // sigma = 30, eta = 1: floor(30 / 1 / 3) = 10
    assert_eq!(step_count(true, 10), 1000);
    assert_eq!(step_count(true, 1), 100);
    assert_eq!(step_count(true, 999), 99900);
}

#[test]
fn step_count_is_capped() {
    assert_eq!(step_count(true, 1000), 100000);
    assert_eq!(step_count(true, 1001), MAX_STEPS);
    assert_eq!(step_count(true, 5000), 100000);
    assert_eq!(step_count(true, u32::MAX), 100000);
}

#[test]
fn zero_factor_gives_no_bins() {
    assert_eq!(step_count(true, 0), 0);
    assert_eq!(pair_count(0), 0);
}

#[test]
fn pairs_split_even_and_odd_counts() {
    assert_eq!(pair_count(100), 50);
    assert_eq!(pair_count(1000), 500);
    assert_eq!(pair_count(101), 50);
    assert_eq!(pair_count(1), 0);
    assert_eq!(pair_count(100000), 50000);
}

#[test]
fn pairs_cover_even_window_once() {
    // Midpoints sampled by pair i: bin i - 1 from below, bin n - i from above.
    for n in [2u32, 10, 100, 1000] {
        let mut seen = vec![0u32; n as usize];
        for i in 1..=pair_count(n) {
            seen[(i - 1) as usize] += 1;
            seen[(n - i) as usize] += 1;
        }
        assert!(seen.iter().all(|&c| c == 1));
    }
}

#[test]
fn pairs_skip_middle_of_odd_window() {
    for n in [1u32, 3, 101, 999] {
        let mut seen = vec![0u32; n as usize];
        for i in 1..=pair_count(n) {
            seen[(i - 1) as usize] += 1;
            seen[(n - i) as usize] += 1;
        }
        for (j, &c) in seen.iter().enumerate() {
            if j == (n / 2) as usize {
                assert_eq!(c, 0);
            } else {
                assert_eq!(c, 1);
            }
        }
    }
}
