use vstd::prelude::*;

verus! {

/// Number of samples in one analysis window.
pub const FFT_SIZE: usize = 8192;

/// Number of samples between the starts of two consecutive windows.
pub const HOP_SIZE: usize = 2048;

/// Number of full analysis windows in a buffer of `n` samples: a trailing
/// window that does not fit is dropped.
pub open spec fn num_frames(n: int) -> int {
    if n < FFT_SIZE {
        0
    } else {
        (n - FFT_SIZE) / (HOP_SIZE as int) + 1
    }
}

/// The first sample of every full analysis window in a buffer of
/// `n_samples` samples, in order.
pub fn frame_starts(n_samples: usize) -> (r: Vec<usize>)
    ensures
        r@.len() == num_frames(n_samples as int),
        forall|i: int| 0 <= i < r@.len() ==> #[trigger] r@[i] == HOP_SIZE * i,
        forall|i: int| 0 <= i < r@.len() ==> #[trigger] r@[i] + FFT_SIZE <= n_samples,
{
    let mut starts: Vec<usize> = Vec::new();
    let mut start: usize = 0;
    while start <= n_samples && n_samples - start >= FFT_SIZE
        invariant
            start == HOP_SIZE * starts@.len(),
            start <= n_samples || starts@.len() == 0,
            starts@.len() > 0 ==> start + FFT_SIZE - HOP_SIZE <= n_samples,
            forall|i: int| 0 <= i < starts@.len() ==> #[trigger] starts@[i] == HOP_SIZE * i,
            forall|i: int| 0 <= i < starts@.len() ==> #[trigger] starts@[i] + FFT_SIZE <= n_samples,
        decreases n_samples - start,
    {
        starts.push(start);
        start = start + HOP_SIZE;
    }
    proof {
        let k = starts@.len() as int;
        let n = n_samples as int;
        if n >= 8192 {
            assert(k >= 1);
            assert(2048 * (k - 1) + 8192 <= n);
            assert(2048 * k + 8192 > n);
            assert((n - 8192) / 2048 == k - 1) by (nonlinear_arith)
                requires
                    2048 * (k - 1) <= n - 8192,
                    n - 8192 < 2048 * k,
            ;
        }
    }
    starts
}

} // verus!
