//! Mapping of transform bins onto the fixed display grid.
//!
//! An N-point transform of samples taken at `sample_rate` Hz has bins
//! `0 ..= N/2`, bin `i` at frequency `i * sample_rate / N` Hz, and the
//! analysis keeps only bins inside the 60–15,000 Hz range. The published
//! output is one power value per grid frequency `200 * k` Hz for
//! `k = 1 ..= 69`; each grid frequency reads the kept bin nearest to it —
//! an exact or nearest match, never an interpolation. All of that is stated
//! and computed here over exact integers: bin `i` is compared against a
//! target `t` through the common-denominator distance `|i*sample_rate - t*N|`.

use vstd::prelude::*;

verus! {

/// Lower edge of the analysed frequency range, Hz.
pub const RANGE_MIN_HZ: u32 = 60;

/// Upper edge of the analysed frequency range, Hz.
pub const RANGE_MAX_HZ: u32 = 15000;

/// Spacing of the published frequency grid, Hz.
pub const BUCKET_STEP_HZ: u32 = 200;

/// Number of grid frequencies published per tick: 200 Hz through 13,800 Hz.
pub const BUCKET_COUNT: usize = 69;

/// Bin `i` of an N-point transform exists and survives the range
/// restriction: `0 <= i <= n/2` and `60 <= i*sample_rate/n <= 15000`,
/// the frequency comparison written exactly over integers.
pub open spec fn bin_in_range(i: int, sample_rate: int, n: int) -> bool {
    &&& 0 <= i <= n / 2
    &&& RANGE_MIN_HZ * n <= i * sample_rate
    &&& i * sample_rate <= RANGE_MAX_HZ * n
}

/// Distance of bin `i`'s frequency from the target frequency, scaled by the
/// common denominator `n`: `|i*sample_rate - target*n|`.
pub open spec fn bin_dist(i: int, target: int, sample_rate: int, n: int) -> int {
    let d = i * sample_rate - target * n;
    if d >= 0 {
        d
    } else {
        -d
    }
}

/// Bin `b` is the one a grid frequency reads: it survives the range
/// restriction, no surviving bin is nearer to the target, and of equally
/// near bins it is the lowest.
pub open spec fn is_nearest_bin(b: int, target: int, sample_rate: int, n: int) -> bool {
    &&& bin_in_range(b, sample_rate, n)
    &&& forall|j: int| bin_in_range(j, sample_rate, n) ==> bin_dist(b, target, sample_rate, n) <= bin_dist(j, target, sample_rate, n)
    &&& forall|j: int| bin_in_range(j, sample_rate, n) && j < b ==> bin_dist(b, target, sample_rate, n) < bin_dist(j, target, sample_rate, n)
}

/// Finds the bin that the grid frequency `target` reads from an N-point
/// transform at `sample_rate`, or nothing when the range restriction leaves
/// no bin at all — then no lookup can succeed, whatever the target.
pub fn nearest_bin(target: u32, sample_rate: u32, n: u32) -> (r: Option<u32>)
    requires
        n >= 2,
        target <= RANGE_MAX_HZ,
    ensures
        r is Some <==> exists|i: int| bin_in_range(i, sample_rate as int, n as int),
        r matches Some(b) ==> is_nearest_bin(b as int, target as int, sample_rate as int, n as int),
{
    proof {
        assert(target * n <= 0x3A98u64 * 0xFFFF_FFFFu64 && RANGE_MIN_HZ * n <= 0x3A98u64 * 0xFFFF_FFFFu64
            && RANGE_MAX_HZ * n <= 0x3A98u64 * 0xFFFF_FFFFu64) by (nonlinear_arith)
            requires
                target <= 0x3A98u64,
                RANGE_MIN_HZ <= 0x3A98u64,
                RANGE_MAX_HZ <= 0x3A98u64,
                n <= 0xFFFF_FFFFu64,
        ;
    }
    let target_n: u64 = target as u64 * n as u64;
    let min_n: u64 = RANGE_MIN_HZ as u64 * n as u64;
    let max_n: u64 = RANGE_MAX_HZ as u64 * n as u64;
    let half: u32 = n / 2;
    let mut best: Option<u32> = None;
    let mut best_dist: u64 = 0;
    let mut i: u32 = 0;
    while i <= half
        invariant
            n >= 2,
            half == n / 2,
            i <= half + 1,
            target_n == target * n,
            min_n == RANGE_MIN_HZ * n,
            max_n == RANGE_MAX_HZ * n,
            best is None ==> forall|j: int| 0 <= j < i ==> !bin_in_range(j, sample_rate as int, n as int),
            best matches Some(b) ==> ({
                &&& bin_in_range(b as int, sample_rate as int, n as int)
                &&& b < i
                &&& best_dist == bin_dist(b as int, target as int, sample_rate as int, n as int)
                &&& forall|j: int| bin_in_range(j, sample_rate as int, n as int) && j < i ==> best_dist <= bin_dist(j, target as int, sample_rate as int, n as int)
                &&& forall|j: int| bin_in_range(j, sample_rate as int, n as int) && j < b ==> best_dist < bin_dist(j, target as int, sample_rate as int, n as int)
            }),
        decreases half + 1 - i,
    {
        proof {
            assert(i * sample_rate <= 0x8000_0000u64 * 0xFFFF_FFFFu64) by (nonlinear_arith)
                requires
                    i <= 0x8000_0000u64,
                    sample_rate <= 0xFFFF_FFFFu64,
            ;
        }
        let i_rate: u64 = i as u64 * sample_rate as u64;
        if min_n <= i_rate && i_rate <= max_n {
            let d: u64 = if i_rate >= target_n {
                i_rate - target_n
            } else {
                target_n - i_rate
            };
            let better = match best {
                None => true,
                Some(_) => d < best_dist,
            };
            if better {
                best = Some(i);
                best_dist = d;
            }
        }
        i = i + 1;
    }
    best
}

/// The lowest bin that survives the range restriction, or nothing when none
/// does. A renderer that holds the kept bins as a dense row indexes it at
/// `bin - first_bin_in_range(..)`.
pub fn first_bin_in_range(sample_rate: u32, n: u32) -> (r: Option<u32>)
    requires
        n >= 2,
    ensures
        r is Some <==> exists|i: int| bin_in_range(i, sample_rate as int, n as int),
        r matches Some(b) ==> ({
            &&& bin_in_range(b as int, sample_rate as int, n as int)
            &&& forall|j: int| 0 <= j < b ==> !bin_in_range(j, sample_rate as int, n as int)
        }),
{
    proof {
        assert(RANGE_MIN_HZ * n <= 0x3A98u64 * 0xFFFF_FFFFu64 && RANGE_MAX_HZ * n <= 0x3A98u64 * 0xFFFF_FFFFu64)
            by (nonlinear_arith)
            requires
                RANGE_MIN_HZ <= 0x3A98u64,
                RANGE_MAX_HZ <= 0x3A98u64,
                n <= 0xFFFF_FFFFu64,
        ;
    }
    let min_n: u64 = RANGE_MIN_HZ as u64 * n as u64;
    let max_n: u64 = RANGE_MAX_HZ as u64 * n as u64;
    let half: u32 = n / 2;
    let mut i: u32 = 0;
    while i <= half
        invariant
            n >= 2,
            half == n / 2,
            i <= half + 1,
            min_n == RANGE_MIN_HZ * n,
            max_n == RANGE_MAX_HZ * n,
            forall|j: int| 0 <= j < i ==> !bin_in_range(j, sample_rate as int, n as int),
        decreases half + 1 - i,
    {
        proof {
            assert(i * sample_rate <= 0x8000_0000u64 * 0xFFFF_FFFFu64) by (nonlinear_arith)
                requires
                    i <= 0x8000_0000u64,
                    sample_rate <= 0xFFFF_FFFFu64,
            ;
        }
        let i_rate: u64 = i as u64 * sample_rate as u64;
        if min_n <= i_rate && i_rate <= max_n {
            proof {
                assert(bin_in_range(i as int, sample_rate as int, n as int));
            }
            return Some(i);
        }
        i = i + 1;
    }
    None
}

/// A grid frequency that no kept bin can serve: the range restriction left
/// no bin at all. A misconfiguration of rate and window size — fatal, not a
/// per-tick condition.
#[derive(Clone, Copy, Debug, PartialEq, Eq, Structural)]
pub struct BinLookupError {
    /// The grid frequency whose lookup failed first.
    pub target_hz: u32,
}

/// The published frequency grid: `200 * k` Hz for `k = 1 ..= 69`.
pub fn bucket_targets() -> (r: Vec<u32>)
    ensures
        r@.len() == BUCKET_COUNT,
        forall|k: int| 0 <= k < BUCKET_COUNT ==> r@[k] == BUCKET_STEP_HZ * (k + 1),
{
    let mut targets: Vec<u32> = Vec::new();
    let mut k: usize = 0;
    while k < BUCKET_COUNT
        invariant
            k <= BUCKET_COUNT,
            targets@.len() == k,
            forall|j: int| 0 <= j < k ==> targets@[j] == BUCKET_STEP_HZ * (j + 1),
        decreases BUCKET_COUNT - k,
    {
        targets.push(BUCKET_STEP_HZ * (k as u32 + 1));
        k = k + 1;
    }
    targets
}

/// One transform bin per grid frequency: the bin that `200 * (k+1)` Hz
/// reads, for `k = 0 ..` in grid order. Whether any bin survives the range
/// restriction does not depend on the target, so the lookup fails for the
/// first grid frequency or for none.
pub fn bucket_bins(sample_rate: u32, n: u32) -> (r: Result<Vec<u32>, BinLookupError>)
    requires
        n >= 2,
    ensures
        r is Ok <==> exists|i: int| bin_in_range(i, sample_rate as int, n as int),
        r matches Ok(bins) ==> ({
            &&& bins@.len() == BUCKET_COUNT
            &&& forall|k: int| 0 <= k < BUCKET_COUNT ==> is_nearest_bin(bins@[k] as int, BUCKET_STEP_HZ * (k + 1), sample_rate as int, n as int)
        }),
        r matches Err(e) ==> e == (BinLookupError { target_hz: BUCKET_STEP_HZ }),
{
    let mut bins: Vec<u32> = Vec::new();
    let mut k: usize = 0;
    while k < BUCKET_COUNT
        invariant
            n >= 2,
            k <= BUCKET_COUNT,
            bins@.len() == k,
            k > 0 ==> exists|i: int| bin_in_range(i, sample_rate as int, n as int),
            forall|j: int| 0 <= j < k ==> is_nearest_bin(bins@[j] as int, BUCKET_STEP_HZ * (j + 1), sample_rate as int, n as int),
        decreases BUCKET_COUNT - k,
    {
        let target: u32 = BUCKET_STEP_HZ * (k as u32 + 1);
        match nearest_bin(target, sample_rate, n) {
            Some(b) => bins.push(b),
            None => {
                return Err(BinLookupError { target_hz: target });
            },
        }
        k = k + 1;
    }
    Ok(bins)
}

} // verus!
