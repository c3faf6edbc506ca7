use whisperme::framing::{whole_frames, FrameBuffer, FRAME_SIZE};
use whisperme::transcription::{
    accept_detected_language, audio_duration_ms, emit_threshold_ms, initial_language,
    needed_audio_sample, needs_language_detection, no_samples, padded_len, plan_emission,
    samples_to_remove, Segment, CAPTURE_RATE, MIN_AUDIO_SAMPLES, SAMPLE_RATE,
};

#[test]
fn test_denoise_frame_size() {
    // RNNoise frame size is 480 samples at 48kHz = 10ms
    assert_eq!(nnnoiseless::DenoiseState::FRAME_SIZE, 480);
    assert_eq!(FRAME_SIZE, nnnoiseless::DenoiseState::FRAME_SIZE);
}

#[test]
fn test_process_empty() {
    // Nothing pushed: no frame comes out, and the stream ends without output.
    let mut b: FrameBuffer<f32> = FrameBuffer::new();
    assert!(b.push(&[]).is_empty());
    assert!(whole_frames::<f32>(&[]).is_empty());
}

#[test]
fn test_process_partial_frame() {
    // Less than one frame: accumulated, nothing handed out.
    let mut b: FrameBuffer<f32> = FrameBuffer::new();
    let input = vec![0.0f32; FRAME_SIZE - 1];
    assert!(b.push(&input).is_empty());
    assert!(whole_frames(&input).is_empty());
}

#[test]
fn splitting_the_input_does_not_change_the_frames() {
    let input: Vec<u32> = (0..(FRAME_SIZE as u32 * 3 + 17)).collect();
    let mut whole: FrameBuffer<u32> = FrameBuffer::new();
    let at_once = whole.push(&input);
    for cut in [0, 1, FRAME_SIZE - 1, FRAME_SIZE, FRAME_SIZE + 3, input.len()] {
        let mut split: FrameBuffer<u32> = FrameBuffer::new();
        let mut frames = split.push(&input[..cut]);
        frames.extend(split.push(&input[cut..]));
        assert_eq!(frames.len(), at_once.len());
        for (x, y) in frames.iter().zip(at_once.iter()) {
            assert_eq!(x.samples, y.samples);
            assert_eq!(x.warmup, y.warmup);
        }
        let rest_split = split.push(&vec![0u32; FRAME_SIZE - 17]);
        let mut again: FrameBuffer<u32> = FrameBuffer::new();
        again.push(&input);
        let rest_whole = again.push(&vec![0u32; FRAME_SIZE - 17]);
        assert_eq!(rest_split.len(), 1);
        assert_eq!(rest_split[0].samples, rest_whole[0].samples);
    }
}

#[test]
fn partial_frame_waits() {
    let mut b: FrameBuffer<u32> = FrameBuffer::new();
    let input: Vec<u32> = (0..(FRAME_SIZE as u32 - 1)).collect();
    assert!(b.push(&input).is_empty());
    let frames = b.push(&[999]);
    assert_eq!(frames.len(), 1);
    assert!(frames[0].warmup);
    assert_eq!(frames[0].samples[..FRAME_SIZE - 1], input[..]);
    assert_eq!(frames[0].samples[FRAME_SIZE - 1], 999);
}

#[test]
fn frames_keep_order_and_only_the_first_warms_up() {
    let mut b: FrameBuffer<u32> = FrameBuffer::new();
    let input: Vec<u32> = (0..(FRAME_SIZE as u32 * 7 + 5)).collect();
    let frames = b.push(&input);
    assert_eq!(frames.len(), 7);
    let mut all: Vec<u32> = Vec::new();
    for (k, f) in frames.iter().enumerate() {
        assert_eq!(f.samples.len(), FRAME_SIZE);
        assert_eq!(f.warmup, k == 0);
        all.extend_from_slice(&f.samples);
    }
    assert_eq!(all[..], input[..FRAME_SIZE * 7]);
    let more = b.push(&vec![0u32; FRAME_SIZE]);
    assert_eq!(more.len(), 1);
    assert!(!more[0].warmup);
    assert_eq!(more[0].samples[..5], input[FRAME_SIZE * 7..]);
}

#[test]
fn whole_frames_drop_the_tail() {
    let input: Vec<i16> = vec![0; FRAME_SIZE * 2 - 1];
    let frames = whole_frames(&input);
    assert_eq!(frames.len(), 1);
    assert!(frames[0].warmup);
    assert!(whole_frames::<i16>(&[]).is_empty());
}

#[test]
fn sample_arithmetic() {
    assert_eq!(SAMPLE_RATE, 16000);
    assert_eq!(CAPTURE_RATE, 48000);
    assert_eq!(MIN_AUDIO_SAMPLES, 19200);
    assert_eq!(no_samples(1000), 16000);
    assert_eq!(no_samples(1), 16);
    assert_eq!(audio_duration_ms(16000), 1000);
    assert_eq!(audio_duration_ms(15), 0);
    assert_eq!(padded_len(10), MIN_AUDIO_SAMPLES);
    assert_eq!(padded_len(20000), 20000);
}

#[test]
fn waiting_for_enough_audio() {
    assert_eq!(needed_audio_sample(0, 1000), 19200);
    assert_eq!(needed_audio_sample(10000, 1000), 16000);
    assert_eq!(needed_audio_sample(19200, 500), 8000);
    assert_eq!(needed_audio_sample(5000, 0), 14200);
}

#[test]
fn language_choice() {
    assert_eq!(initial_language("auto"), None);
    assert_eq!(initial_language("de"), Some("de".to_string()));
    assert!(needs_language_detection(false, true));
    assert!(!needs_language_detection(true, true));
    assert!(!needs_language_detection(false, false));
    assert!(accept_detected_language(true, true));
    assert!(accept_detected_language(false, false));
    assert!(!accept_detected_language(false, true));
}

#[test]
fn grace_threshold() {
    assert_eq!(emit_threshold_ms(3000, 1200), 1800);
    assert_eq!(emit_threshold_ms(1000, 1200), 0);
}

fn seg(start_ms: usize, end_ms: usize, loud: bool, text: &str) -> Segment {
    Segment { start_ms, end_ms, loud, text: text.to_string() }
}

#[test]
fn only_finished_loud_segments_are_emitted() {
    let segs = vec![
        seg(0, 1000, true, " Hello"),
        seg(1000, 1500, false, " um"),
        seg(1500, 1800, true, " world"),
        seg(1800, 2600, true, " again"),
    ];
    let e = plan_emission(&segs, 1800, true, true);
    assert_eq!(e.texts, vec!["Hello".to_string(), " world".to_string()]);
    assert_eq!(e.last_emitted_end_ms, 1800);
    assert!(!e.first_element);

    let later = plan_emission(&segs, 1800, true, false);
    assert_eq!(later.texts, vec![" Hello".to_string(), " world".to_string()]);
}

#[test]
fn stopping_flushes_everything() {
    let segs = vec![seg(0, 1000, false, " hm"), seg(1000, 5000, true, "  tail")];
    let e = plan_emission(&segs, 0, false, true);
    assert_eq!(e.texts, vec!["tail".to_string()]);
    assert_eq!(e.last_emitted_end_ms, 5000);
    assert!(!e.first_element);
}

#[test]
fn nothing_finished_keeps_the_buffer() {
    let segs = vec![seg(0, 3000, true, " later")];
    let e = plan_emission(&segs, 1000, true, true);
    assert!(e.texts.is_empty());
    assert_eq!(e.last_emitted_end_ms, 0);
    assert!(e.first_element);
    assert_eq!(samples_to_remove(e.last_emitted_end_ms, 40000), 0);
}

#[test]
fn consumed_audio_is_bounded_by_the_buffer() {
    assert_eq!(samples_to_remove(1000, 40000), 16000);
    assert_eq!(samples_to_remove(5000, 40000), 40000);
}
