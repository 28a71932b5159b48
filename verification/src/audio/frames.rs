//! Cutting the incoming sample stream into analysis frames.
//!
//! The capture callback appends each block of mono samples to a pending
//! buffer; every whole frame of `frame_size` samples at its front is taken
//! out and analysed, and the rest waits for the next block.
use vstd::prelude::*;

verus! {

/// The samples of frame `i` of `all`, cut in frames of `n`.
pub open spec fn frame_of<T>(all: Seq<T>, n: int, i: int) -> Seq<T> {
    all.subrange(i * n, (i + 1) * n)
}

/// Append `samples` to `pending` and take out every whole frame of
/// `frame_size` samples, oldest first. What is left (fewer than
/// `frame_size` samples) stays pending. Taken together, the frames and
/// what is left are the old pending samples followed by the new ones.
pub fn push_and_take_frames<T: Copy>(pending: &mut Vec<T>, samples: &[T], frame_size: usize) -> (frames:
    Vec<Vec<T>>)
    requires
        frame_size > 0,
    ensures
        ({
            let all = old(pending)@ + samples@;
            &&& frames@.len() == (all.len() as int) / (frame_size as int)
            &&& forall|i: int|
                0 <= i < frames@.len() ==> (#[trigger] frames@[i])@ == frame_of(
                    all,
                    frame_size as int,
                    i,
                )
            &&& final(pending)@ == all.subrange(
                frames@.len() * frame_size,
                all.len() as int,
            )
        }),
        final(pending)@.len() < frame_size,
{
    let ghost all = old(pending)@ + samples@;
    let mut i: usize = 0;
    while i < samples.len()
        invariant
            i <= samples@.len(),
            pending@ == old(pending)@ + samples@.subrange(0, i as int),
        decreases samples@.len() - i,
    {
        pending.push(samples[i]);
        proof {
            assert(samples@.subrange(0, i + 1) =~= samples@.subrange(0, i as int).push(samples@[i as int]));
        }
        i = i + 1;
    }
    assert(samples@.subrange(0, samples@.len() as int) =~= samples@);
    assert(pending@ =~= all);
    let total: usize = pending.len();
    let n: usize = frame_size;
    let mut frames: Vec<Vec<T>> = Vec::new();
    let mut start: usize = 0;
    assert(frames@.len() * n == 0) by (nonlinear_arith)
        requires
            frames@.len() == 0,
    ;
    while total - start >= n
        invariant
            pending@ == all,
            total == all.len(),
            n == frame_size,
            n > 0,
            start <= total,
            start == frames@.len() * n,
            forall|k: int|
                0 <= k < frames@.len() ==> (#[trigger] frames@[k])@ == frame_of(all, n as int, k),
        decreases total - start,
    {
        let mut frame: Vec<T> = Vec::new();
        let mut j: usize = 0;
        while j < n
            invariant
                pending@ == all,
                total == all.len(),
                start + n <= total,
                j <= n,
                frame@ == all.subrange(start as int, start + j),
            decreases n - j,
        {
            frame.push(pending[start + j]);
            proof {
                assert(all.subrange(start as int, start + j + 1) =~= all.subrange(
                    start as int,
                    start + j,
                ).push(all[start + j]));
            }
            j = j + 1;
        }
        proof {
            let k = frames@.len() as int;
            assert(start + n == (k + 1) * n) by (nonlinear_arith)
                requires
                    start == k * n,
            ;
            assert(frame@ == frame_of(all, n as int, k));
        }
        frames.push(frame);
        start = start + n;
    }
    let mut rest: Vec<T> = Vec::new();
    let mut j: usize = start;
    while j < total
        invariant
            pending@ == all,
            total == all.len(),
            start <= j <= total,
            rest@ == all.subrange(start as int, j as int),
        decreases total - j,
    {
        rest.push(pending[j]);
        proof {
            assert(all.subrange(start as int, j + 1) =~= all.subrange(start as int, j as int).push(
                all[j as int],
            ));
        }
        j = j + 1;
    }
    proof {
        let k = frames@.len() as int;
        let t = total as int;
        let nn = n as int;
        assert(t - k * nn < nn);
        assert(k == t / nn) by (nonlinear_arith)
            requires
                0 <= k * nn <= t,
                t - k * nn < nn,
                nn > 0,
        ;
    }
    *pending = rest;
    frames
}

} // verus!
