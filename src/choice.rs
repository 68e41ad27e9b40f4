//! Deterministic weighted choice: the parser's source of variety.
use vstd::prelude::*;

verus! {

/// The sum of the weights from index `i` on.
pub open spec fn sum_from(w: Seq<u64>, i: int) -> int
    decreases w.len() - i,
{
    if 0 <= i < w.len() {
        w[i] + sum_from(w, i + 1)
    } else {
        0
    }
}

/// The index of the bucket that holds `r`, scanning the buckets from `i` on,
/// each as wide as its weight.
pub open spec fn bucket_from(r: int, w: Seq<u64>, i: int) -> int
    decreases w.len() - i,
{
    if 0 <= i < w.len() {
        if r < w[i] {
            i
        } else {
            bucket_from(r - w[i], w, i + 1)
        }
    } else {
        w.len() as int
    }
}

/// The bucket that `(n + s) mod total` falls in, where `total` is the sum of
/// the weights.
pub open spec fn choice(n: u64, s: u64, w: Seq<u64>) -> int {
    bucket_from((n + s) % sum_from(w, 0), w, 0)
}

proof fn lemma_sum_nonneg(w: Seq<u64>, i: int)
    ensures
        sum_from(w, i) >= 0,
    decreases w.len() - i,
{
    if 0 <= i < w.len() {
        lemma_sum_nonneg(w, i + 1);
    }
}

/// Picks a bucket: `(n + s) mod total` scanned through the weights.
pub fn pick(n: u64, s: u64, w: &[u64]) -> (r: usize)
    requires
        0 < sum_from(w@, 0) < 0x1_0000_0000,
    ensures
        r == choice(n, s, w@),
        r < w@.len(),
{
    let mut total: u64 = 0;
    let mut j: usize = w.len();
    while j > 0
        invariant
            j <= w@.len(),
            total == sum_from(w@, j as int),
            sum_from(w@, 0) < 0x1_0000_0000,
        decreases j,
    {
        j = j - 1;
        proof {
            lemma_sum_nonneg(w@, j + 1);
            lemma_prefix_le(w@, j as int);
        }
        total = total + w[j];
    }
    let ghost t = total as int;
    let rem0 = ((n % total) + (s % total)) % total;
    proof {
        vstd::arithmetic::div_mod::lemma_add_mod_noop(n as int, s as int, t);
    }
    let mut rem = rem0;
    let mut i: usize = 0;
    loop
        invariant
            i <= w@.len(),
            0 <= rem < sum_from(w@, i as int),
            bucket_from(rem as int, w@, i as int) == choice(n, s, w@),
        decreases w@.len() - i,
    {
        if i >= w.len() {
            assert(false);
        }
        if rem < w[i] {
            return i;
        }
        rem = rem - w[i];
        i = i + 1;
    }
}

proof fn lemma_prefix_le(w: Seq<u64>, j: int)
    requires
        0 <= j,
    ensures
        sum_from(w, j) <= sum_from(w, 0),
    decreases j,
{
    if j > 0 {
        lemma_prefix_le(w, j - 1);
        lemma_sum_nonneg(w, j);
        if j - 1 < w.len() {
            lemma_prefix_le_step(w, j - 1);
        }
    }
}

proof fn lemma_prefix_le_step(w: Seq<u64>, i: int)
    requires
        0 <= i < w.len(),
    ensures
        sum_from(w, i + 1) <= sum_from(w, i),
{
}

} // verus!
