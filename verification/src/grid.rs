//! Row arithmetic for the image grid.
//!
//! A list of `n` filtered images is shown as rows of at most `k` images each
//! (`k` is the grid width, always positive). These spec functions say how many
//! rows there are, where each row starts, and how many images it holds; the
//! lemmas establish that the row count is exactly the ceiling of `n / k` and
//! that the rows partition the filtered list.

use vstd::prelude::*;

verus! {

use vstd::arithmetic::div_mod::{lemma_div_plus_one, lemma_fundamental_div_mod,
    lemma_mod_division_less_than_divisor};
use vstd::arithmetic::mul::lemma_mul_inequality;

/// Number of grid rows needed for `n` images at `k` images per row.
pub open spec fn spec_row_count(n: int, k: int) -> int
    recommends
        n >= 0,
        k > 0,
{
    if n <= 0 {
        0
    } else {
        (n - 1) / k + 1
    }
}

/// Index into the filtered list of the first image of row `r`.
pub open spec fn spec_first_index_of_row(r: int, k: int) -> int {
    r * k
}

/// Number of images shown in row `r`: a full row of `k`, except that the last
/// row holds only what remains.
pub open spec fn spec_items_in_row(n: int, k: int, r: int) -> int
    recommends
        n >= 0,
        k > 0,
        0 <= r < spec_row_count(n, k),
{
    let remaining = n - spec_first_index_of_row(r, k);
    if remaining < k {
        remaining
    } else {
        k
    }
}

/// Total number of images in rows `0 .. r`.
pub open spec fn spec_items_in_first_rows(n: int, k: int, r: int) -> int
    decreases r,
{
    if r <= 0 {
        0
    } else {
        spec_items_in_first_rows(n, k, r - 1) + spec_items_in_row(n, k, r - 1)
    }
}

/// The row count is exactly the ceiling of `n / k`: it is `(n + k - 1) / k`,
/// it is zero for an empty list, the rows cover all `n` images, and dropping
/// the last row would leave some image uncovered.
pub proof fn lemma_row_count_is_ceil(n: int, k: int)
    requires
        n >= 0,
        k > 0,
    ensures
        spec_row_count(n, k) == (n + k - 1) / k,
        n == 0 ==> spec_row_count(n, k) == 0,
        k * spec_row_count(n, k) >= n,
        n > 0 ==> k * (spec_row_count(n, k) - 1) < n,
{
    if n == 0 {
        assert((k - 1) / k == 0) by {
            lemma_fundamental_div_mod(k - 1, k);
            lemma_mod_division_less_than_divisor(k - 1, k);
            if (k - 1) / k >= 1 {
                lemma_mul_inequality(1, (k - 1) / k, k);
            }
            if (k - 1) / k <= -1 {
                lemma_mul_inequality((k - 1) / k, -1, k);
            }
        }
    } else {
        lemma_div_plus_one(n - 1, k);
        assert((n + k - 1) / k == (n - 1) / k + 1);
        lemma_fundamental_div_mod(n - 1, k);
        lemma_mod_division_less_than_divisor(n - 1, k);
        let q = (n - 1) / k;
        let m = (n - 1) % k;
        assert(n - 1 == k * q + m);
        assert(k * spec_row_count(n, k) == k * (q + 1)) by {
            assert(spec_row_count(n, k) == q + 1);
        }
        assert(k * (q + 1) == k * q + k) by {
            vstd::arithmetic::mul::lemma_mul_is_distributive_add(k, q, 1);
        }
        assert(k * q + k == n - 1 - m + k);
        assert(n - 1 - m + k >= n);
        assert(k * (spec_row_count(n, k) - 1) == k * q == n - 1 - m < n);
    }
}

/// Every valid row starts inside the filtered list, so each row holds at
/// least one image and at most `k`.
pub proof fn lemma_row_start_in_range(n: int, k: int, r: int)
    requires
        n >= 0,
        k > 0,
        0 <= r < spec_row_count(n, k),
    ensures
        spec_first_index_of_row(r, k) < n,
        spec_first_index_of_row(r, k) >= 0,
        1 <= spec_items_in_row(n, k, r) <= k,
        spec_first_index_of_row(r, k) + spec_items_in_row(n, k, r) <= n,
{
    lemma_row_count_is_ceil(n, k);
    lemma_mul_inequality(r, spec_row_count(n, k) - 1, k);
    assert(r * k <= (spec_row_count(n, k) - 1) * k);
    assert((spec_row_count(n, k) - 1) * k == k * (spec_row_count(n, k) - 1)) by {
        vstd::arithmetic::mul::lemma_mul_is_commutative(spec_row_count(n, k) - 1, k);
    }
    vstd::arithmetic::mul::lemma_mul_nonnegative(r, k);
}

/// The first `r` rows hold exactly `min(n, r * k)` images.
proof fn lemma_prefix_sum(n: int, k: int, r: int)
    requires
        n >= 0,
        k > 0,
        0 <= r <= spec_row_count(n, k),
    ensures
        spec_items_in_first_rows(n, k, r) == if r * k < n { r * k } else { n },
    decreases r,
{
    lemma_row_count_is_ceil(n, k);
    if r == 0 {
    } else {
        lemma_prefix_sum(n, k, r - 1);
        lemma_row_start_in_range(n, k, r - 1);
        assert((r - 1) * k == r * k - k) by {
            vstd::arithmetic::mul::lemma_mul_is_distributive_sub_other_way(k, r, 1);
        }
    }
}

/// The rows partition the filtered list: summing `spec_items_in_row` over all
/// rows gives back the number of filtered images.
pub proof fn lemma_rows_cover_all_items(n: int, k: int)
    requires
        n >= 0,
        k > 0,
    ensures
        spec_items_in_first_rows(n, k, spec_row_count(n, k)) == n,
{
    let rc = spec_row_count(n, k);
    lemma_row_count_is_ceil(n, k);
    lemma_prefix_sum(n, k, rc);
    assert(rc * k == k * rc) by {
        vstd::arithmetic::mul::lemma_mul_is_commutative(rc, k);
    }
}

} // verus!
