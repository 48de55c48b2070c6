use vstd::prelude::*;

verus! {

/// Samples per pixel that worker `index` draws when `samples` are shared by
/// `threads` workers: an even share, plus one for each of the first
/// `samples % threads` workers.
pub open spec fn worker_share(samples: int, threads: int, index: int) -> int {
    samples / threads + if index < samples % threads {
        1int
    } else {
        0int
    }
}

/// Sum of the shares of workers `0 .. k`.
pub open spec fn shares_before(samples: int, threads: int, k: int) -> int
    decreases k,
{
    if k <= 0 {
        0
    } else {
        shares_before(samples, threads, k - 1) + worker_share(samples, threads, k - 1)
    }
}

/// Sum of a sequence of sample counts.
pub open spec fn total(s: Seq<u32>) -> int
    decreases s.len(),
{
    if s.len() == 0 {
        0
    } else {
        total(s.drop_last()) + s.last() as int
    }
}

/// The number of samples per pixel that worker `index` of `thread_count`
/// draws out of a budget of `samples`.
pub fn samples_for_worker(samples: u32, thread_count: u32, index: u32) -> (r: u32)
    requires
        thread_count > 0,
        index < thread_count,
    ensures
        r as int == worker_share(samples as int, thread_count as int, index as int),
{
    let extra: u32 = samples % thread_count;
    let base: u32 = samples / thread_count;
    if index < extra {
        proof {
            lemma_share_fits(samples as int, thread_count as int);
        }
        base + 1
    } else {
        base
    }
}

/// Shares a budget of `samples` per pixel among `thread_count` workers:
/// entry `i` is what worker `i` draws, and the entries add up to the budget.
pub fn split_samples(samples: u32, thread_count: u32) -> (r: Vec<u32>)
    requires
        thread_count > 0,
    ensures
        r@.len() == thread_count,
        forall|i: int|
            0 <= i < thread_count ==> #[trigger] r@[i] as int == worker_share(
                samples as int,
                thread_count as int,
                i,
            ),
        total(r@) == samples,
{
    let mut r: Vec<u32> = Vec::with_capacity(thread_count as usize);
    let mut i: u32 = 0;
    while i < thread_count
        invariant
            i <= thread_count,
            thread_count > 0,
            r@.len() == i,
            forall|j: int|
                0 <= j < i ==> #[trigger] r@[j] as int == worker_share(
                    samples as int,
                    thread_count as int,
                    j,
                ),
            total(r@) == shares_before(samples as int, thread_count as int, i as int),
        decreases thread_count - i,
    {
        let n: u32 = samples_for_worker(samples, thread_count, i);
        let ghost before = r@;
        r.push(n);
        proof {
            assert(r@.drop_last() =~= before);
        }
        i = i + 1;
    }
    proof {
        lemma_shares_cover_budget(samples as int, thread_count as int);
    }
    r
}

/// A worker's share never exceeds the budget it was cut from, so it fits
/// wherever the budget does.
proof fn lemma_share_fits(samples: int, threads: int)
    requires
        samples >= 0,
        threads > 0,
        samples % threads > 0,
    ensures
        samples / threads + 1 <= samples,
{
    lemma_prefix_of_shares(samples, threads, threads);
    assert(samples == threads * (samples / threads) + samples % threads) by (nonlinear_arith)
        requires
            threads > 0,
    ;
    assert(samples / threads <= threads * (samples / threads)) by (nonlinear_arith)
        requires
            threads > 0,
            samples / threads >= 0,
    ;
}

/// The first `k` workers together draw `k` even shares plus one extra sample
/// for each of them that lies below `samples % threads`.
pub proof fn lemma_prefix_of_shares(samples: int, threads: int, k: int)
    requires
        samples >= 0,
        threads > 0,
        0 <= k <= threads,
    ensures
        shares_before(samples, threads, k) == k * (samples / threads) + if k
            < samples % threads {
            k
        } else {
            samples % threads
        },
    decreases k,
{
    if k > 0 {
        lemma_prefix_of_shares(samples, threads, k - 1);
        assert((k - 1) * (samples / threads) + samples / threads == k * (samples / threads))
            by (nonlinear_arith);
    } else {
        assert(0 * (samples / threads) == 0);
    }
}

/// The shares of all workers add up to exactly the budget.
pub proof fn lemma_shares_cover_budget(samples: int, threads: int)
    requires
        samples >= 0,
        threads > 0,
    ensures
        shares_before(samples, threads, threads) == samples,
{
    lemma_prefix_of_shares(samples, threads, threads);
    assert(samples == threads * (samples / threads) + samples % threads) by (nonlinear_arith)
        requires
            threads > 0,
    ;
}

/// The split is as even as possible: every worker below `samples % threads`
/// draws one sample more than the even share, every other worker draws the
/// even share, so an earlier worker never draws less than a later one and no
/// two workers differ by more than one sample.
pub proof fn lemma_split_is_even(samples: int, threads: int, i: int, j: int)
    requires
        samples >= 0,
        threads > 0,
        0 <= i <= j < threads,
    ensures
        worker_share(samples, threads, i) == samples / threads + 1 <==> i < samples % threads,
        worker_share(samples, threads, i) == samples / threads <==> i >= samples % threads,
        0 <= worker_share(samples, threads, i) - worker_share(samples, threads, j) <= 1,
{
}

} // verus!
