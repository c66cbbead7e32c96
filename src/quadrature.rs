//! Step-count heuristic and midpoint-pair schedule of the convolution.
use vstd::prelude::*;

verus! {

/// Bins used when the Gaussian resolution is not broad relative to the
/// Landau width.
pub const BASE_STEPS: u32 = 100;

/// Upper bound on the number of bins, however broad the resolution.
pub const MAX_STEPS: u32 = 100000;

/// The bin count for a resolution that is (`broad`) or is not more than three
/// Landau widths, where `factor` is `floor(sigma / eta / 3)`.
pub open spec fn spec_step_count(broad: bool, factor: int) -> int {
    if !broad {
        BASE_STEPS as int
    } else if BASE_STEPS * factor > MAX_STEPS {
        MAX_STEPS as int
    } else {
        BASE_STEPS * factor
    }
}

/// Number of quadrature bins over the window `[x - 8 sigma, x + 8 sigma]`.
///
/// `broad` says whether `sigma > 3 * eta`; `factor` is `floor(sigma / eta / 3)`
/// as an unsigned integer, and is read only when `broad` holds. The base count
/// of 100 is then multiplied by `factor` and capped at 100000.
pub fn step_count(broad: bool, factor: u32) -> (n: u32)
    ensures
        n == spec_step_count(broad, factor as int),
        n <= MAX_STEPS,
{
    if !broad {
        BASE_STEPS
    } else if factor > MAX_STEPS / BASE_STEPS {
        MAX_STEPS
    } else {
        BASE_STEPS * factor
    }
}

/// Number of symmetric midpoint pairs evaluated over `n` bins. Pair `i`
/// (from 1 to this count) samples the midpoint of bin `i - 1`, counted from
/// the lower end of the window, and that of bin `n - i`.
pub fn pair_count(n: u32) -> (p: u32)
    ensures
        p == n / 2,
        2 * p <= n,
        n - 2 * p <= 1,
{
    n / 2
}

/// Bin whose midpoint pair `i` samples from the lower end of the window:
/// the offset `(i - 1/2) * step` from `x - 8 sigma` is its midpoint.
pub open spec fn lower_bin(i: int) -> int {
    i - 1
}

/// Bin whose midpoint pair `i` samples from the upper end of the window:
/// `x + 8 sigma - (i - 1/2) * step` is the midpoint of bin `n - i`.
pub open spec fn upper_bin(n: int, i: int) -> int {
    n - i
}

/// The bins that the pairs `1 ..= n / 2` sample.
pub open spec fn sampled_bins(n: int) -> Set<int> {
    Set::new(|j: int| exists|i: int| 1 <= i <= n / 2 && (#[trigger] lower_bin(i) == j || upper_bin(n, i) == j))
}

/// The bins of a window cut into `n` pieces.
pub open spec fn all_bins(n: int) -> Set<int> {
    Set::new(|j: int| 0 <= j < n)
}

/// No bin is sampled twice: distinct pairs, and the two ends of one pair,
/// land in distinct bins.
pub proof fn lemma_pairs_distinct(n: u32, i: int, k: int)
    requires
        1 <= i <= n / 2,
        1 <= k <= n / 2,
    ensures
        lower_bin(i) != upper_bin(n as int, k),
        i != k ==> lower_bin(i) != lower_bin(k),
        i != k ==> upper_bin(n as int, i) != upper_bin(n as int, k),
{
}

/// With an even bin count the pairs sample every bin of the window; with an
/// odd one they sample every bin but the middle one, `n / 2`, which the
/// convolution leaves out.
pub proof fn lemma_pairs_cover_bins(n: u32)
    ensures
        n % 2 == 0 ==> sampled_bins(n as int) == all_bins(n as int),
        n % 2 == 1 ==> sampled_bins(n as int) == all_bins(n as int).remove(n as int / 2),
{
    let m = n as int;
    assert forall|j: int| 0 <= j < m && !(m % 2 == 1 && j == m / 2) implies
        #[trigger] sampled_bins(m).contains(j) by {
        if j < m / 2 {
            assert(lower_bin(j + 1) == j);
        } else {
            assert(upper_bin(m, m - j) == j && lower_bin(m - j) == m - j - 1);
        }
    }
    assert forall|j: int| #[trigger] sampled_bins(m).contains(j) implies
        0 <= j < m && !(m % 2 == 1 && j == m / 2) by {
    }
    if m % 2 == 0 {
        assert(sampled_bins(m) =~= all_bins(m));
    } else {
        assert(sampled_bins(m) =~= all_bins(m).remove(m / 2));
    }
}

} // verus!
