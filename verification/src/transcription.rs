//! The decisions of the streaming transcription loop.
//!
//! The loop buffers 16 kHz audio, hands it to Whisper, and emits the text of
//! the segments that can no longer change: those that ended at least the grace
//! period before the end of the buffered audio, or every segment once the
//! recording has stopped. Segments quieter than the silence threshold are
//! dropped, the very first emitted text loses its leading white space, and the
//! audio up to the end of the last finished segment is dropped from the buffer.
//! Whisper itself and the level measurement run in the application; this
//! module decides what happens with their results.

use vstd::prelude::*;

use crate::text::{text_eq, trim_start, trim_start_spec};

verus! {

/// Output sample rate of the audio pipeline (Whisper's rate), in Hz.
pub const SAMPLE_RATE: u32 = 16000;

/// Capture sample rate (the rate RNNoise works at), in Hz.
pub const CAPTURE_RATE: u32 = 48000;

/// Minimum number of samples Whisper accepts: 1.2 s at 16 kHz.
pub const MIN_AUDIO_SAMPLES: usize = 19200;

/// Number of samples in `ms` milliseconds at 16 kHz.
pub open spec fn samples_for_ms(ms: nat) -> nat {
    ms * 16000 / 1000
}

/// Number of samples in `ms` milliseconds of 16 kHz audio.
pub fn no_samples(ms: usize) -> (n: usize)
    requires
        ms * 16000 <= usize::MAX,
    ensures
        n == samples_for_ms(ms as nat),
{
    ms * 16000 / 1000
}

/// Duration in whole milliseconds of `len` samples at 16 kHz.
pub fn audio_duration_ms(len: usize) -> (ms: usize)
    requires
        len * 1000 <= usize::MAX,
    ensures
        ms == len * 1000 / 16000,
{
    len * 1000 / 16000
}

/// Length of the buffer handed to Whisper: padded with silence up to the minimum.
pub fn padded_len(len: usize) -> (n: usize)
    ensures
        n == if len < MIN_AUDIO_SAMPLES {
            MIN_AUDIO_SAMPLES
        } else {
            len
        },
        n >= MIN_AUDIO_SAMPLES,
        n >= len,
{
    if len < MIN_AUDIO_SAMPLES {
        MIN_AUDIO_SAMPLES
    } else {
        len
    }
}

/// How many new samples to wait for before the next transcription in
/// continuous mode: one transcription interval, or more if the buffer would
/// otherwise stay below the minimum Whisper accepts.
pub fn needed_audio_sample(buffer_len: usize, interval_ms: usize) -> (n: usize)
    requires
        interval_ms * 16000 <= usize::MAX,
    ensures
        n == if samples_for_ms(interval_ms as nat) >= (if buffer_len < MIN_AUDIO_SAMPLES {
            MIN_AUDIO_SAMPLES - buffer_len
        } else {
            0
        }) {
            samples_for_ms(interval_ms as nat)
        } else {
            (MIN_AUDIO_SAMPLES - buffer_len) as nat
        },
        n >= samples_for_ms(interval_ms as nat),
        buffer_len + n >= MIN_AUDIO_SAMPLES,
{
    let interval_samples = no_samples(interval_ms);
    let min_samples = if buffer_len < MIN_AUDIO_SAMPLES {
        MIN_AUDIO_SAMPLES - buffer_len
    } else {
        0
    };
    if interval_samples >= min_samples {
        interval_samples
    } else {
        min_samples
    }
}

/// The language Whisper is told to use at the start of a recording: the
/// configured one, or none (to be detected) when it is `auto`.
pub fn initial_language(config_language: &str) -> (r: Option<String>)
    ensures
        config_language@ == "auto"@ ==> r is None,
        config_language@ != "auto"@ ==> (r matches Some(l) && l@ == config_language@),
{
    if text_eq(config_language, "auto") {
        None
    } else {
        Some(config_language.to_owned())
    }
}

/// Whether the language must still be detected before transcribing: only in
/// continuous mode, and only while none is known.
pub fn needs_language_detection(language_known: bool, continuous: bool) -> (b: bool)
    ensures
        b == (!language_known && continuous),
{
    !language_known && continuous
}

/// Whether a detected language is adopted: when the detection was confident
/// enough, or when the recording has stopped and there is no more audio to wait for.
pub fn accept_detected_language(confident: bool, recording: bool) -> (b: bool)
    ensures
        b == (confident || !recording),
{
    confident || !recording
}

/// Segments must end at or before this point (ms) to be emitted while
/// recording: the buffered duration less the grace period, or 0.
pub fn emit_threshold_ms(duration_ms: usize, grace_ms: usize) -> (t: usize)
    ensures
        t == if duration_ms < grace_ms {
            0
        } else {
            (duration_ms - grace_ms) as nat
        },
{
    if duration_ms < grace_ms {
        0
    } else {
        duration_ms - grace_ms
    }
}

/// One segment returned by Whisper, with its level already judged against the
/// silence threshold.
pub struct Segment {
    /// Start of the segment in the buffer, in ms.
    pub start_ms: usize,
    /// End of the segment in the buffer, in ms.
    pub end_ms: usize,
    /// The segment's RMS level lies above the silence threshold.
    pub loud: bool,
    /// The transcribed text.
    pub text: String,
}

/// A segment is finished when it ends at or before the threshold, or when
/// the recording has stopped.
pub open spec fn is_finished(s: Segment, threshold_ms: nat, recording: bool) -> bool {
    s.end_ms <= threshold_ms || !recording
}

/// A segment is emitted when it is finished and not silent.
pub open spec fn is_emitted(s: Segment, threshold_ms: nat, recording: bool) -> bool {
    is_finished(s, threshold_ms, recording) && s.loud
}

/// The segments whose text is emitted, in order.
pub open spec fn emitted_segments(segs: Seq<Segment>, threshold_ms: nat, recording: bool) -> Seq<
    Segment,
> {
    segs.filter(|s: Segment| is_emitted(s, threshold_ms, recording))
}

/// The texts emitted, in order: the text of each emitted segment, the first
/// of them without leading white space when it is the first of the recording.
pub open spec fn emitted_texts(
    segs: Seq<Segment>,
    threshold_ms: nat,
    recording: bool,
    first_element: bool,
) -> Seq<Seq<char>> {
    emitted_segments(segs, threshold_ms, recording).map(
        |k: int, s: Segment|
            if k == 0 && first_element {
                trim_start_spec(s.text@)
            } else {
                s.text@
            },
    )
}

/// End (ms) of the last finished segment, or 0 when none is finished.
pub open spec fn last_finished_end(segs: Seq<Segment>, threshold_ms: nat, recording: bool) -> nat
    decreases segs.len(),
{
    if segs.len() == 0 {
        0
    } else if is_finished(segs.last(), threshold_ms, recording) {
        segs.last().end_ms as nat
    } else {
        last_finished_end(segs.drop_last(), threshold_ms, recording)
    }
}

proof fn lemma_emitted_segments_last(segs: Seq<Segment>, threshold_ms: nat, recording: bool)
    requires
        segs.len() > 0,
    ensures
        emitted_segments(segs, threshold_ms, recording) == if is_emitted(
            segs.last(),
            threshold_ms,
            recording,
        ) {
            emitted_segments(segs.drop_last(), threshold_ms, recording).push(segs.last())
        } else {
            emitted_segments(segs.drop_last(), threshold_ms, recording)
        },
{
    reveal_with_fuel(Seq::filter, 1);
}

/// What one transcription pass emits.
pub struct Emission {
    /// The texts to send to the output, in order.
    pub texts: Vec<String>,
    /// End (ms) of the last finished segment; 0 when none finished.
    pub last_emitted_end_ms: usize,
    /// Whether the next emitted text is still the first of the recording.
    pub first_element: bool,
}

/// The views of a list of texts.
pub open spec fn texts_view(v: Seq<String>) -> Seq<Seq<char>> {
    v.map_values(|t: String| t@)
}

/// Decides, for the segments of one transcription pass in order, which texts
/// are emitted and how far the buffer is consumed.
pub fn plan_emission(
    segments: &Vec<Segment>,
    threshold_ms: usize,
    recording: bool,
    first_element: bool,
) -> (r: Emission)
    ensures
        texts_view(r.texts@) == emitted_texts(
            segments@,
            threshold_ms as nat,
            recording,
            first_element,
        ),
        r.last_emitted_end_ms == last_finished_end(segments@, threshold_ms as nat, recording),
        r.first_element == (first_element && emitted_segments(
            segments@,
            threshold_ms as nat,
            recording,
        ).len() == 0),
{
    let ghost thr = threshold_ms as nat;
    let mut texts: Vec<String> = Vec::new();
    let mut last_end: usize = 0;
    let mut first = first_element;
    let n = segments.len();
    let mut i: usize = 0;
    assert(segments@.take(0) =~= Seq::<Segment>::empty());
    assert(texts_view(texts@) =~= emitted_texts(segments@.take(0), thr, recording, first_element));
    while i < n
        invariant
            n == segments@.len(),
            i <= n,
            thr == threshold_ms as nat,
            texts_view(texts@) == emitted_texts(segments@.take(i as int), thr, recording, first_element),
            last_end == last_finished_end(segments@.take(i as int), thr, recording),
            first == (first_element && emitted_segments(segments@.take(i as int), thr, recording).len()
                == 0),
        decreases n - i,
    {
        let seg = &segments[i];
        let ghost prev = segments@.take(i as int);
        let ghost next = segments@.take(i + 1);
        assert(next.drop_last() =~= prev);
        assert(next.last() == *seg);
        proof {
            lemma_emitted_segments_last(next, thr, recording);
        }
        assert(last_finished_end(next, thr, recording) == if is_finished(*seg, thr, recording) {
            seg.end_ms as nat
        } else {
            last_finished_end(prev, thr, recording)
        });
        if seg.end_ms <= threshold_ms || !recording {
            if seg.loud {
                let t = if first {
                    first = false;
                    trim_start(seg.text.as_str())
                } else {
                    seg.text.clone()
                };
                let ghost ep = emitted_segments(prev, thr, recording);
                texts.push(t);
                assert(emitted_segments(next, thr, recording) == ep.push(*seg));
                assert(emitted_texts(next, thr, recording, first_element) =~= emitted_texts(
                    prev,
                    thr,
                    recording,
                    first_element,
                ).push(
                    if ep.len() == 0 && first_element {
                        trim_start_spec(seg.text@)
                    } else {
                        seg.text@
                    },
                ));
                assert(texts_view(texts@) =~= emitted_texts(next, thr, recording, first_element));
            } else {
                assert(texts_view(texts@) =~= emitted_texts(next, thr, recording, first_element));
            }
            last_end = seg.end_ms;
        } else {
            assert(texts_view(texts@) =~= emitted_texts(next, thr, recording, first_element));
        }
        i = i + 1;
    }
    assert(segments@.take(n as int) =~= segments@);
    Emission { texts, last_emitted_end_ms: last_end, first_element: first }
}

/// The segments that are not silent, in order.
pub open spec fn loud_segments(segs: Seq<Segment>) -> Seq<Segment> {
    segs.filter(|s: Segment| s.loud)
}

proof fn lemma_loud_segments_last(segs: Seq<Segment>)
    requires
        segs.len() > 0,
    ensures
        loud_segments(segs) == if segs.last().loud {
            loud_segments(segs.drop_last()).push(segs.last())
        } else {
            loud_segments(segs.drop_last())
        },
{
    reveal_with_fuel(Seq::filter, 1);
}

/// Once the recording has stopped, a pass emits every segment that is not
/// silent, in order, and consumes the audio up to the end of the last segment.
pub proof fn lemma_stopped_pass_flushes(segs: Seq<Segment>, threshold_ms: nat)
    ensures
        emitted_segments(segs, threshold_ms, false) == loud_segments(segs),
        last_finished_end(segs, threshold_ms, false) == if segs.len() == 0 {
            0
        } else {
            segs.last().end_ms as nat
        },
    decreases segs.len(),
{
    if segs.len() == 0 {
        reveal_with_fuel(Seq::filter, 1);
    } else {
        lemma_stopped_pass_flushes(segs.drop_last(), threshold_ms);
        lemma_emitted_segments_last(segs, threshold_ms, false);
        lemma_loud_segments_last(segs);
    }
}

/// While recording, every emitted segment is loud and ended at or before
/// the threshold, so no text is emitted from inside the grace period.
pub proof fn lemma_emitted_segments_finished(segs: Seq<Segment>, threshold_ms: nat)
    ensures
        forall|k: int|
            0 <= k < emitted_segments(segs, threshold_ms, true).len() ==> {
                let s = #[trigger] emitted_segments(segs, threshold_ms, true)[k];
                s.loud && s.end_ms <= threshold_ms
            },
    decreases segs.len(),
{
    if segs.len() == 0 {
        reveal_with_fuel(Seq::filter, 1);
    } else {
        lemma_emitted_segments_finished(segs.drop_last(), threshold_ms);
        lemma_emitted_segments_last(segs, threshold_ms, true);
        let prev = emitted_segments(segs.drop_last(), threshold_ms, true);
        assert forall|k: int|
            0 <= k < emitted_segments(segs, threshold_ms, true).len() implies {
                let s = #[trigger] emitted_segments(segs, threshold_ms, true)[k];
                s.loud && s.end_ms <= threshold_ms
            } by {
            if k < prev.len() {
                assert(emitted_segments(segs, threshold_ms, true)[k] == prev[k]);
            }
        }
    }
}

/// How many samples to drop from the front of the buffer after a pass: the
/// audio up to the end of the last finished segment, at most the whole buffer.
pub fn samples_to_remove(last_emitted_end_ms: usize, buffer_len: usize) -> (n: usize)
    requires
        last_emitted_end_ms * 16000 <= usize::MAX,
    ensures
        n == if samples_for_ms(last_emitted_end_ms as nat) <= buffer_len {
            samples_for_ms(last_emitted_end_ms as nat)
        } else {
            buffer_len as nat
        },
        n <= buffer_len,
{
    let s = no_samples(last_emitted_end_ms);
    if s <= buffer_len {
        s
    } else {
        buffer_len
    }
}

/// The audio consumed after a pass ends at the last finished segment, in
/// order, whether or not it was loud: the end of the last segment that ended
/// at or before the threshold (every segment once the recording stopped), or
/// 0 when none did. Silence does not change how much is consumed.
pub proof fn lemma_consumed_up_to_last_finished(segs: Seq<Segment>, threshold_ms: nat, recording: bool)
    ensures
        (forall|i: int|
            0 <= i < segs.len() ==> !((#[trigger] segs[i]).end_ms <= threshold_ms || !recording))
            ==> last_finished_end(segs, threshold_ms, recording) == 0,
        forall|j: int|
            0 <= j < segs.len() && ((#[trigger] segs[j]).end_ms <= threshold_ms || !recording) && (
            forall|i: int|
                j < i < segs.len() ==> !((#[trigger] segs[i]).end_ms <= threshold_ms || !recording))
                ==> last_finished_end(segs, threshold_ms, recording) == segs[j].end_ms,
    decreases segs.len(),
{
    if segs.len() > 0 {
        let init = segs.drop_last();
        lemma_consumed_up_to_last_finished(init, threshold_ms, recording);
        let n = segs.len() - 1;
        assert(segs.last() == segs[n]);
        assert forall|i: int| 0 <= i < init.len() implies init[i] == segs[i] by {}
        if !(segs[n].end_ms <= threshold_ms || !recording) {
            assert forall|j: int|
                0 <= j < segs.len() && ((#[trigger] segs[j]).end_ms <= threshold_ms || !recording)
                    && (forall|i: int|
                    j < i < segs.len() ==> !((#[trigger] segs[i]).end_ms <= threshold_ms
                        || !recording)) implies last_finished_end(segs, threshold_ms, recording)
                == segs[j].end_ms by {
                assert(j < n);
                assert(init[j] == segs[j]);
                assert forall|i: int| j < i < init.len() implies !((#[trigger] init[i]).end_ms
                    <= threshold_ms || !recording) by {
                    assert(init[i] == segs[i]);
                }
            }
            if forall|i: int|
                0 <= i < segs.len() ==> !((#[trigger] segs[i]).end_ms <= threshold_ms || !recording) {
                assert forall|i: int| 0 <= i < init.len() implies !((#[trigger] init[i]).end_ms
                    <= threshold_ms || !recording) by {
                    assert(init[i] == segs[i]);
                }
            }
        } else {
            assert forall|j: int|
                0 <= j < segs.len() && ((#[trigger] segs[j]).end_ms <= threshold_ms || !recording)
                    && (forall|i: int|
                    j < i < segs.len() ==> !((#[trigger] segs[i]).end_ms <= threshold_ms
                        || !recording)) implies last_finished_end(segs, threshold_ms, recording)
                == segs[j].end_ms by {
                if j < n {
                    assert(!((segs[n]).end_ms <= threshold_ms || !recording));
                }
            }
        }
    }
}

/// No finished segment that is loud is lost: each one is among the
/// segments whose text is emitted.
pub proof fn lemma_finished_loud_segment_emitted(
    segs: Seq<Segment>,
    threshold_ms: nat,
    recording: bool,
    k: int,
)
    requires
        0 <= k < segs.len(),
        segs[k].loud,
        segs[k].end_ms <= threshold_ms || !recording,
    ensures
        emitted_segments(segs, threshold_ms, recording).contains(segs[k]),
{
    segs.lemma_filter_contains(|s: Segment| is_emitted(s, threshold_ms, recording), k);
}

} // verus!
