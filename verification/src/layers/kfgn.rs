//! Temporal resampling plans of the Kalman-filtering graph network: which time
//! steps are averaged into each coarse step, and which coarse step feeds each
//! fine step on the way back.
use vstd::prelude::*;

verus! {

/// Number of coarse steps when `seq_len` steps are pooled by `granularity`.
pub open spec fn pooled_len(seq_len: nat, granularity: nat) -> nat
    recommends
        granularity > 0,
{
    ((seq_len + granularity - 1) as nat / granularity) as nat
}

/// Window `i` of a pooling by `granularity`: it starts at `i * granularity`
/// and spans `granularity` steps, or the steps that are left at the end.
pub open spec fn pool_window(i: nat, seq_len: nat, granularity: nat) -> (nat, nat) {
    let start = i * granularity;
    let end = if start + granularity <= seq_len {
        start + granularity
    } else {
        seq_len
    };
    (start, (end - start) as nat)
}

/// The averaging windows `(start, size)` for pooling a sequence over time
/// with stride and width `granularity`.
pub fn pool_windows(seq_len: usize, granularity: usize) -> (w: Vec<(usize, usize)>)
    requires
        granularity > 0,
        seq_len + granularity - 1 <= usize::MAX,
    ensures
        w@.len() == pooled_len(seq_len as nat, granularity as nat),
        forall|i: int|
            0 <= i < w@.len() ==> (#[trigger] w@[i]).0 == pool_window(
                i as nat,
                seq_len as nat,
                granularity as nat,
            ).0 && w@[i].1 == pool_window(i as nat, seq_len as nat, granularity as nat).1,
{
    let new_seq_len = (seq_len + (granularity - 1)) / granularity;
    let mut windows: Vec<(usize, usize)> = Vec::new();
    let mut i: usize = 0;
    while i < new_seq_len
        invariant
            granularity > 0,
            seq_len + granularity - 1 <= usize::MAX,
            new_seq_len == (seq_len + granularity - 1) / granularity as int,
            i <= new_seq_len,
            windows@.len() == i,
            forall|j: int|
                0 <= j < i ==> (#[trigger] windows@[j]).0 == pool_window(
                    j as nat,
                    seq_len as nat,
                    granularity as nat,
                ).0 && windows@[j].1 == pool_window(
                    j as nat,
                    seq_len as nat,
                    granularity as nat,
                ).1,
        decreases new_seq_len - i,
    {
        assert(i * granularity < seq_len) by (nonlinear_arith)
            requires
                granularity > 0,
                i < new_seq_len,
                new_seq_len == (seq_len + granularity - 1) / granularity as int,
        ;
        let start = i * granularity;
        let end = if granularity <= seq_len && start <= seq_len - granularity {
            start + granularity
        } else {
            seq_len
        };
        windows.push((start, end - start));
        i = i + 1;
    }
    windows
}

/// The windows of a pooling cover the sequence exactly, in order and without
/// overlap: the first starts at 0, each starts where the previous one ended,
/// each holds between 1 and `granularity` steps, and the last ends at `seq_len`.
pub proof fn lemma_pool_windows_partition(seq_len: nat, granularity: nat)
    requires
        granularity > 0,
        seq_len > 0,
    ensures
        pool_window(0, seq_len, granularity).0 == 0,
        forall|i: nat|
            i < pooled_len(seq_len, granularity) ==> 1 <= (#[trigger] pool_window(
                i,
                seq_len,
                granularity,
            )).1 <= granularity,
        forall|i: nat|
            i + 1 < pooled_len(seq_len, granularity) ==> (#[trigger] pool_window(
                i + 1,
                seq_len,
                granularity,
            )).0 == pool_window(i, seq_len, granularity).0 + pool_window(
                i,
                seq_len,
                granularity,
            ).1,
        pool_window((pooled_len(seq_len, granularity) - 1) as nat, seq_len, granularity).0
            + pool_window((pooled_len(seq_len, granularity) - 1) as nat, seq_len, granularity).1
            == seq_len,
{
    let n = pooled_len(seq_len, granularity);
    assert((n - 1) * granularity < seq_len <= n * granularity) by (nonlinear_arith)
        requires
            granularity > 0,
            seq_len > 0,
            n == (seq_len + granularity - 1) / granularity as int,
    ;
    assert forall|i: nat| i < pooled_len(seq_len, granularity) implies 1 <= (#[trigger] pool_window(
        i,
        seq_len,
        granularity,
    )).1 <= granularity by {
        assert(i * granularity < seq_len) by (nonlinear_arith)
            requires
                i <= n - 1,
                (n - 1) * granularity < seq_len,
                granularity > 0,
        ;
    }
    assert forall|i: nat| i + 1 < pooled_len(seq_len, granularity) implies (#[trigger] pool_window(
        i + 1,
        seq_len,
        granularity,
    )).0 == pool_window(i, seq_len, granularity).0 + pool_window(i, seq_len, granularity).1 by {
        assert((i + 1) * granularity == i * granularity + granularity) by (nonlinear_arith);
        assert((i + 1) * granularity < seq_len) by (nonlinear_arith)
            requires
                i + 1 <= n - 1,
                (n - 1) * granularity < seq_len,
                granularity > 0,
        ;
    }
    assert((n - 1) * granularity + granularity == n * granularity) by (nonlinear_arith);
}

/// Source step of output step `j` when a sequence of `seq_len` steps is
/// stretched to `target_len` steps by repeating each step.
pub open spec fn upsample_source(j: nat, seq_len: nat, target_len: nat) -> nat
    recommends
        seq_len > 0,
{
    j / (((target_len + seq_len - 1) as nat / seq_len) as nat)
}

/// Which input step feeds each output step when a sequence of `seq_len`
/// steps is stretched to `target_len` steps: every step is repeated
/// `ceil(target_len / seq_len)` times, in order, and the result is cut at
/// `target_len`. A sequence already of the target length maps to itself.
pub fn upsample_sources(seq_len: usize, target_len: usize) -> (s: Vec<usize>)
    requires
        seq_len > 0 || target_len == 0,
        target_len + seq_len - 1 <= usize::MAX,
    ensures
        s@.len() == target_len,
        forall|j: int| 0 <= j < s@.len() ==> #[trigger] s@[j] == upsample_source(
            j as nat,
            seq_len as nat,
            target_len as nat,
        ),
{
    if seq_len == target_len {
        let mut s: Vec<usize> = Vec::new();
        let mut j: usize = 0;
        while j < target_len
            invariant
                j <= target_len,
                seq_len == target_len,
                s@.len() == j,
                forall|k: int| 0 <= k < j ==> #[trigger] s@[k] == upsample_source(
                    k as nat,
                    seq_len as nat,
                    target_len as nat,
                ),
            decreases target_len - j,
        {
            assert((target_len + seq_len - 1) as nat / seq_len as nat == 1) by (nonlinear_arith)
                requires
                    seq_len == target_len,
                    seq_len > 0,
            ;
            s.push(j);
            j = j + 1;
        }
        return s;
    }
    if target_len == 0 {
        return Vec::new();
    }
    let repeat_factor = (target_len + (seq_len - 1)) / seq_len;
    assert(repeat_factor >= 1) by (nonlinear_arith)
        requires
            seq_len > 0,
            target_len > 0,
            repeat_factor == (target_len + seq_len - 1) / seq_len as int,
    ;
    let mut s: Vec<usize> = Vec::new();
    let mut t: usize = 0;
    while t < seq_len
        invariant
            seq_len > 0,
            repeat_factor >= 1,
            repeat_factor == (target_len + seq_len - 1) / seq_len as int,
            t <= seq_len,
            s@.len() == if t * repeat_factor <= target_len {
                t * repeat_factor
            } else {
                target_len as int
            },
            forall|k: int| 0 <= k < s@.len() ==> #[trigger] s@[k] == k / repeat_factor as int,
        decreases seq_len - t,
    {
        let mut r: usize = 0;
        while r < repeat_factor
            invariant
                seq_len > 0,
                repeat_factor >= 1,
                t < seq_len,
                r <= repeat_factor,
                s@.len() == if t * repeat_factor + r <= target_len {
                    t * repeat_factor + r
                } else {
                    target_len as int
                },
                forall|k: int| 0 <= k < s@.len() ==> #[trigger] s@[k] == k / repeat_factor as int,
            decreases repeat_factor - r,
        {
            if s.len() < target_len {
                assert((t * repeat_factor + r) / repeat_factor as int == t) by (nonlinear_arith)
                    requires
                        repeat_factor >= 1,
                        r < repeat_factor,
                ;
                s.push(t);
            }
            r = r + 1;
        }
        assert(t * repeat_factor + repeat_factor == (t + 1) * repeat_factor) by (nonlinear_arith);
        t = t + 1;
    }
    assert(seq_len * repeat_factor >= target_len) by (nonlinear_arith)
        requires
            seq_len > 0,
            repeat_factor == (target_len + seq_len - 1) / seq_len as int,
    ;
    s
}

/// Stretching a sequence yields exactly `target_len` steps, starts from the
/// first input step, never goes back in time, and only reads existing steps.
pub proof fn lemma_upsample_monotone(seq_len: nat, target_len: nat, j: nat, k: nat)
    requires
        seq_len > 0,
        j <= k < target_len,
    ensures
        upsample_source(0, seq_len, target_len) == 0,
        upsample_source(j, seq_len, target_len) <= upsample_source(k, seq_len, target_len),
        upsample_source(k, seq_len, target_len) < seq_len,
{
    let r = ((target_len + seq_len - 1) as nat / seq_len) as nat;
    assert(r >= 1 && seq_len * r >= target_len) by (nonlinear_arith)
        requires
            seq_len > 0,
            target_len > 0,
            r == (target_len + seq_len - 1) as nat / seq_len,
    ;
    assert(j / r <= k / r) by (nonlinear_arith)
        requires
            j <= k,
            r >= 1,
    ;
    assert(k / r < seq_len) by (nonlinear_arith)
        requires
            k < target_len,
            seq_len * r >= target_len,
            r >= 1,
    ;
}

/// Stretching repeats every input step `r = ceil(target_len / seq_len)` times
/// in a row: output `j` reads step `t` exactly when `t * r <= j < (t + 1) * r`,
/// so consecutive outputs stay on a step or move to the next one.
pub proof fn lemma_upsample_blocks(seq_len: nat, target_len: nat, j: nat)
    requires
        seq_len > 0,
        j + 1 < target_len,
    ensures
        ({
            let r = ((target_len + seq_len - 1) as nat / seq_len) as nat;
            let t = upsample_source(j, seq_len, target_len);
            &&& r >= 1
            &&& t * r <= j < (t + 1) * r
        }),
        upsample_source(j, seq_len, target_len) <= upsample_source(j + 1, seq_len, target_len)
            <= upsample_source(j, seq_len, target_len) + 1,
{
    let r = ((target_len + seq_len - 1) as nat / seq_len) as nat;
    assert(r >= 1) by (nonlinear_arith)
        requires
            seq_len > 0,
            target_len > 0,
            r == (target_len + seq_len - 1) as nat / seq_len,
    ;
    let t = j / r;
    let u = (j + 1) / r;
    assert(t * r <= j < (t + 1) * r) by (nonlinear_arith)
        requires
            r >= 1,
            t == j / r,
    ;
    assert(t <= u <= t + 1) by (nonlinear_arith)
        requires
            r >= 1,
            t == j / r,
            u == (j + 1) / r,
    ;
}

} // verus!
