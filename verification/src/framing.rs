//! Framing of the raw 48 kHz audio for noise suppression.
//!
//! RNNoise works on frames of 480 samples (10 ms at 48 kHz). Incoming samples
//! are accumulated and cut into consecutive frames; what does not fill a
//! frame waits for the next samples. The first frame of a stream only warms
//! up the denoiser (its output holds artifacts of the uninitialised state) and
//! is not passed on. The denoising and resampling arithmetic runs in the
//! application; this module decides which samples form which frame.

use vstd::prelude::*;

verus! {

/// Number of samples in one RNNoise frame (10 ms at 48 kHz).
pub const FRAME_SIZE: usize = 480;

/// One frame cut from the stream.
pub struct Frame<T> {
    /// Exactly `FRAME_SIZE` consecutive samples.
    pub samples: Vec<T>,
    /// This is the first frame of the stream: it is run through the denoiser
    /// to warm it up, and its output is discarded.
    pub warmup: bool,
}

/// Accumulates samples until whole frames are available.
pub struct FrameBuffer<T> {
    pending: Vec<T>,
    started: bool,
}

impl<T> FrameBuffer<T> {
    /// Fewer samples than a frame are ever pending.
    #[verifier::type_invariant]
    spec fn inv(self) -> bool {
        self.pending@.len() < FRAME_SIZE
    }
}

/// What one push does: with `before` pending and `started` telling whether a
/// frame was handed out, pushing `samples` hands out `frames`, leaves `after`
/// pending and `started_after` as the new state. Frame `k` holds samples
/// `480 k .. 480 k + 480` of the pending samples followed by the new ones;
/// only the first frame of the stream is a warm-up frame; the rest stays pending.
pub open spec fn pushed<T>(
    before: Seq<T>,
    started: bool,
    samples: Seq<T>,
    frames: Seq<Frame<T>>,
    after: Seq<T>,
    started_after: bool,
) -> bool {
    let all = before + samples;
    &&& frames.len() == all.len() / (FRAME_SIZE as nat)
    &&& forall|k: int|
        0 <= k < frames.len() ==> (#[trigger] frames[k]).samples@ == all.subrange(
            k * FRAME_SIZE,
            k * FRAME_SIZE + FRAME_SIZE,
        )
    &&& forall|k: int| 0 <= k < frames.len() ==> (#[trigger] frames[k]).warmup == (k == 0 && !started)
    &&& after == all.skip(frames.len() * FRAME_SIZE)
    &&& started_after == (started || frames.len() > 0)
}

impl<T: Copy> FrameBuffer<T> {
    /// The samples received that do not yet fill a frame.
    pub closed spec fn pending(&self) -> Seq<T> {
        self.pending@
    }

    /// Whether a frame has been handed out already.
    pub closed spec fn started(&self) -> bool {
        self.started
    }

    /// The buffer of a new stream: nothing pending, no frame handed out.
    pub fn new() -> (b: Self)
        ensures
            b.pending() == Seq::<T>::empty(),
            !b.started(),
    {
        FrameBuffer { pending: Vec::new(), started: false }
    }

    /// Adds `samples` to the stream and returns every frame that is now
    /// complete, in order: frame `k` holds samples `480 k .. 480 k + 480` of
    /// the pending samples followed by the new ones, and the rest stays pending.
    pub fn push(&mut self, samples: &[T]) -> (frames: Vec<Frame<T>>)
        ensures
            pushed(
                old(self).pending(),
                old(self).started(),
                samples@,
                frames@,
                final(self).pending(),
                final(self).started(),
            ),
            final(self).pending().len() < FRAME_SIZE,
    {
        proof {
            use_type_invariant(&*self);
        }
        let ghost all = self.pending@ + samples@;
        let mut combined: Vec<T> = Vec::new();
        let mut i: usize = 0;
        while i < self.pending.len()
            invariant
                i <= self.pending@.len(),
                combined@ == self.pending@.take(i as int),
            decreases self.pending@.len() - i,
        {
            combined.push(self.pending[i]);
            assert(self.pending@.take(i + 1) =~= self.pending@.take(i as int).push(
                self.pending@[i as int],
            ));
            i = i + 1;
        }
        assert(self.pending@.take(self.pending@.len() as int) =~= self.pending@);
        let mut j: usize = 0;
        while j < samples.len()
            invariant
                j <= samples@.len(),
                combined@ == self.pending@ + samples@.take(j as int),
            decreases samples@.len() - j,
        {
            combined.push(samples[j]);
            assert(samples@.take(j + 1) =~= samples@.take(j as int).push(samples@[j as int]));
            j = j + 1;
        }
        assert(samples@.take(samples@.len() as int) =~= samples@);
        assert(combined@ =~= all);
        let total = combined.len();
        let count = total / FRAME_SIZE;
        let mut frames: Vec<Frame<T>> = Vec::new();
        let mut f: usize = 0;
        let was_started = self.started;
        while f < count
            invariant
                combined@ == all,
                total == all.len(),
                count == total / FRAME_SIZE,
                f <= count,
                frames@.len() == f,
                forall|k: int|
                    0 <= k < f ==> (#[trigger] frames@[k]).samples@ == all.subrange(
                        k * FRAME_SIZE,
                        k * FRAME_SIZE + FRAME_SIZE,
                    ),
                forall|k: int| 0 <= k < f ==> (#[trigger] frames@[k]).warmup == (k == 0 && !was_started),
            decreases count - f,
        {
            let base = f * FRAME_SIZE;
            let mut frame: Vec<T> = Vec::new();
            let mut k: usize = 0;
            while k < FRAME_SIZE
                invariant
                    combined@ == all,
                    total == all.len(),
                    f < count,
                    count == total / FRAME_SIZE,
                    base == f * FRAME_SIZE,
                    k <= FRAME_SIZE,
                    frame@ == all.subrange(base as int, base + k),
                decreases FRAME_SIZE - k,
            {
                frame.push(combined[base + k]);
                assert(all.subrange(base as int, base + k + 1) =~= all.subrange(
                    base as int,
                    base + k,
                ).push(all[base + k]));
                k = k + 1;
            }
            frames.push(Frame { samples: frame, warmup: f == 0 && !was_started });
            f = f + 1;
        }
        let rest_start = count * FRAME_SIZE;
        let mut rest: Vec<T> = Vec::new();
        let mut r: usize = rest_start;
        while r < total
            invariant
                combined@ == all,
                total == all.len(),
                rest_start <= r <= total,
                rest@ == all.subrange(rest_start as int, r as int),
            decreases total - r,
        {
            rest.push(combined[r]);
            assert(all.subrange(rest_start as int, r + 1) =~= all.subrange(
                rest_start as int,
                r as int,
            ).push(all[r as int]));
            r = r + 1;
        }
        assert(rest@ =~= all.skip(rest_start as int));
        *self = FrameBuffer { pending: rest, started: was_started || count > 0 };
        frames
    }
}

/// Cuts a finished stream into frames the way the stream processor reads it:
/// consecutive frames of exactly 480 samples; a last partial frame is dropped.
pub fn whole_frames<T: Copy>(samples: &[T]) -> (frames: Vec<Frame<T>>)
    ensures
        frames@.len() == samples@.len() / (FRAME_SIZE as nat),
        forall|k: int|
            0 <= k < frames@.len() ==> (#[trigger] frames@[k]).samples@ == samples@.subrange(
                k * FRAME_SIZE,
                k * FRAME_SIZE + FRAME_SIZE,
            ),
        forall|k: int| 0 <= k < frames@.len() ==> (#[trigger] frames@[k]).warmup == (k == 0),
{
    let mut buffer: FrameBuffer<T> = FrameBuffer::new();
    assert(Seq::<T>::empty() + samples@ =~= samples@);
    let frames = buffer.push(samples);
    frames
}

/// The samples of a list of frames, one after the other.
pub open spec fn frames_samples<T>(frames: Seq<Frame<T>>) -> Seq<T>
    decreases frames.len(),
{
    if frames.len() == 0 {
        Seq::<T>::empty()
    } else {
        frames_samples(frames.drop_last()) + frames.last().samples@
    }
}

proof fn lemma_frames_prefix<T>(all: Seq<T>, frames: Seq<Frame<T>>)
    requires
        frames.len() * FRAME_SIZE <= all.len(),
        forall|k: int|
            0 <= k < frames.len() ==> (#[trigger] frames[k]).samples@ == all.subrange(
                k * FRAME_SIZE,
                k * FRAME_SIZE + FRAME_SIZE,
            ),
    ensures
        frames_samples(frames) == all.take(frames.len() * FRAME_SIZE),
    decreases frames.len(),
{
    if frames.len() == 0 {
        assert(all.take(0) =~= Seq::<T>::empty());
    } else {
        let n = frames.len() - 1;
        let init = frames.drop_last();
        assert forall|k: int| 0 <= k < init.len() implies (#[trigger] init[k]).samples@
            == all.subrange(k * FRAME_SIZE, k * FRAME_SIZE + FRAME_SIZE) by {
            assert(init[k] == frames[k]);
        }
        lemma_frames_prefix(all, init);
        assert(frames.last() == frames[n]);
        assert(all.take(n * FRAME_SIZE) + all.subrange(n * FRAME_SIZE, n * FRAME_SIZE + FRAME_SIZE)
            =~= all.take(frames.len() * FRAME_SIZE));
    }
}

/// No sample is lost, duplicated or reordered by framing: the frames handed
/// out by one push, followed by what stays pending, are exactly the samples
/// pending before followed by the pushed ones.
pub proof fn lemma_push_preserves_samples<T: Copy>(
    before: Seq<T>,
    started: bool,
    samples: Seq<T>,
    frames: Seq<Frame<T>>,
    after: Seq<T>,
    started_after: bool,
)
    requires
        pushed(before, started, samples, frames, after, started_after),
    ensures
        frames_samples(frames) + after == before + samples,
{
    let all = before + samples;
    assert(frames.len() * FRAME_SIZE <= all.len()) by (nonlinear_arith)
        requires
            frames.len() == all.len() / (FRAME_SIZE as nat),
    ;
    lemma_frames_prefix(all, frames);
    assert(all.take(frames.len() * FRAME_SIZE) + all.skip(frames.len() * FRAME_SIZE) =~= all);
}

/// However the stream is split across pushes, the same frames come out:
/// pushing `a` and then `b` hands out, in order, the frames that pushing
/// `a + b` at once hands out (the same samples, the same warm-up frame), and
/// leaves the same samples pending and the same state.
pub proof fn lemma_split_pushes_agree<T>(
    before: Seq<T>,
    started: bool,
    a: Seq<T>,
    b: Seq<T>,
    frames_a: Seq<Frame<T>>,
    mid: Seq<T>,
    started_mid: bool,
    frames_b: Seq<Frame<T>>,
    after: Seq<T>,
    started_after: bool,
    frames_ab: Seq<Frame<T>>,
    after_ab: Seq<T>,
    started_ab: bool,
)
    requires
        pushed(before, started, a, frames_a, mid, started_mid),
        pushed(mid, started_mid, b, frames_b, after, started_after),
        pushed(before, started, a + b, frames_ab, after_ab, started_ab),
    ensures
        (frames_a + frames_b).len() == frames_ab.len(),
        forall|k: int|
            0 <= k < frames_ab.len() ==> (#[trigger] (frames_a + frames_b)[k]).samples@
                == frames_ab[k].samples@ && (frames_a + frames_b)[k].warmup == frames_ab[k].warmup,
        after == after_ab,
        started_after == started_ab,
{
    let whole = before + (a + b);
    let first = before + a;
    assert(first + b =~= whole);
    let n1 = frames_a.len();
    let m = n1 * FRAME_SIZE;
    assert(m <= first.len()) by (nonlinear_arith)
        requires
            n1 == first.len() / (FRAME_SIZE as nat),
            m == n1 * FRAME_SIZE,
    ;
    assert(mid + b =~= whole.skip(m as int));
    let n2 = frames_b.len();
    assert(n1 + n2 == frames_ab.len()) by (nonlinear_arith)
        requires
            n1 == first.len() / (FRAME_SIZE as nat),
            m == n1 * FRAME_SIZE,
            m <= first.len(),
            n2 == (mid + b).len() / (FRAME_SIZE as nat),
            (mid + b).len() == whole.len() - m,
            frames_ab.len() == whole.len() / (FRAME_SIZE as nat),
            whole.len() == first.len() + b.len(),
    ;
    let joined = frames_a + frames_b;
    assert forall|k: int| 0 <= k < frames_ab.len() implies (#[trigger] joined[k]).samples@
        == frames_ab[k].samples@ && joined[k].warmup == frames_ab[k].warmup by {
        if k < n1 {
            assert(joined[k] == frames_a[k]);
            assert(k * FRAME_SIZE + FRAME_SIZE <= m) by (nonlinear_arith)
                requires
                    k < n1,
                    m == n1 * FRAME_SIZE,
            ;
            assert(first.subrange(k * FRAME_SIZE, k * FRAME_SIZE + FRAME_SIZE) =~= whole.subrange(
                k * FRAME_SIZE,
                k * FRAME_SIZE + FRAME_SIZE,
            ));
        } else {
            let j = k - n1;
            assert(joined[k] == frames_b[j]);
            assert(j * FRAME_SIZE + m == k * FRAME_SIZE) by (nonlinear_arith)
                requires
                    j == k - n1,
                    m == n1 * FRAME_SIZE,
            ;
            assert((mid + b).subrange(j * FRAME_SIZE, j * FRAME_SIZE + FRAME_SIZE) =~= whole.subrange(
                k * FRAME_SIZE,
                k * FRAME_SIZE + FRAME_SIZE,
            ));
        }
    }
    assert(n2 * FRAME_SIZE + m == frames_ab.len() * FRAME_SIZE) by (nonlinear_arith)
        requires
            n1 + n2 == frames_ab.len(),
            m == n1 * FRAME_SIZE,
    ;
    assert((mid + b).skip(n2 * FRAME_SIZE) =~= whole.skip(frames_ab.len() * FRAME_SIZE));
}

} // verus!
