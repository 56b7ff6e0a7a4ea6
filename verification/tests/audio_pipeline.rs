use parakeet_writer::audio::{
    downmix, resample, AudioRecorder, DEFAULT_INPUT_SAMPLE_RATE, TARGET_OUTPUT_SAMPLE_RATE,
};
use parakeet_writer::wav::encode_wav_mono16;

/// The canonical 44-byte header for `n` samples at `rate`.
fn wav_header(rate: u32, n: u32) -> Vec<u8> {
    let mut h = Vec::new();
    h.extend_from_slice(b"RIFF");
    h.extend_from_slice(&(36 + 2 * n).to_le_bytes());
    h.extend_from_slice(b"WAVE");
    h.extend_from_slice(b"fmt ");
    h.extend_from_slice(&16u32.to_le_bytes());
    h.extend_from_slice(&1u16.to_le_bytes());
    h.extend_from_slice(&1u16.to_le_bytes());
    h.extend_from_slice(&rate.to_le_bytes());
    h.extend_from_slice(&(2 * rate).to_le_bytes());
    h.extend_from_slice(&2u16.to_le_bytes());
    h.extend_from_slice(&16u16.to_le_bytes());
    h.extend_from_slice(b"data");
    h.extend_from_slice(&(2 * n).to_le_bytes());
    h
}

#[test]
fn downmix_stereo_averages_frames() {
    let data = vec![1i16, 3, 0, 0];
    assert_eq!(downmix(&data, 2), vec![2i16, 0]);
}

#[test]
fn downmix_mono_is_identity() {
    let data = vec![5i16, -7, 32767, -32768];
    assert_eq!(downmix(&data, 1), data);
}

#[test]
fn downmix_truncates_toward_zero() {
    assert_eq!(downmix(&vec![-1i16, -2], 2), vec![-1i16]);
    assert_eq!(downmix(&vec![1i16, 2], 2), vec![1i16]);
}

#[test]
fn downmix_partial_trailing_frame() {
    // The trailing lone sample still divides by the channel count.
    assert_eq!(downmix(&vec![1i16, 3, 5], 2), vec![2i16, 2]);
}

#[test]
fn downmix_extremes_stay_in_range() {
    assert_eq!(downmix(&vec![-32768i16, -32768], 2), vec![-32768i16]);
    assert_eq!(downmix(&vec![32767i16, 32767], 2), vec![32767i16]);
}

#[test]
fn resample_identity_at_equal_rates() {
    let s = vec![5i16, -3, 7, 0, 12000];
    assert_eq!(resample(&s, 16000, 16000), s);
}

#[test]
fn resample_length_is_floor_of_ratio() {
    let s: Vec<i16> = (0..48).collect();
    let r = resample(&s, 48000, 16000);
    assert_eq!(r.len(), 16);
    // Integral source positions: every third input sample.
    let expected: Vec<i16> = (0..16).map(|i| 3 * i).collect();
    assert_eq!(r, expected);
}

#[test]
fn resample_interpolates_between_samples() {
    // Positions 0, 2/3 and 4/3 of the input.
    assert_eq!(resample(&vec![10i16, 20], 2, 3), vec![10i16, 16, 20]);
    // A falling slope rounds toward zero as well.
    assert_eq!(resample(&vec![20i16, 10], 2, 3), vec![20i16, 14, 10]);
}

#[test]
fn resample_boundary_yields_last_sample() {
    // The last output's window extends past the input end: no extrapolation.
    let r = resample(&vec![10i16, 20], 2, 3);
    assert_eq!(*r.last().unwrap(), 20);
}

#[test]
fn encode_wav_empty_capture_is_valid_header() {
    let bytes = encode_wav_mono16(&vec![], 16000);
    assert_eq!(bytes, wav_header(16000, 0));
    assert_eq!(bytes.len(), 44);
}

#[test]
fn encode_wav_samples_are_little_endian() {
    let bytes = encode_wav_mono16(&vec![256i16, -2], 16000);
    let mut expected = wav_header(16000, 2);
    expected.extend_from_slice(&[0, 1, 254, 255]);
    assert_eq!(bytes, expected);
}

#[test]
fn recorder_defaults() {
    let r = AudioRecorder::new();
    assert_eq!(r.buffered_len(), 0);
    assert_eq!(r.input_sample_rate(), DEFAULT_INPUT_SAMPLE_RATE);
    assert_eq!(r.output_sample_rate(), TARGET_OUTPUT_SAMPLE_RATE);
    assert_eq!(DEFAULT_INPUT_SAMPLE_RATE, 48000);
    assert_eq!(TARGET_OUTPUT_SAMPLE_RATE, 16000);
}

#[test]
fn recorder_start_clears_buffer() {
    let mut r = AudioRecorder::new();
    r.start(16000);
    r.append_samples(&vec![1i16, 2, 3], 1);
    assert_eq!(r.buffered_len(), 3);
    r.start(44100);
    assert_eq!(r.buffered_len(), 0);
    assert_eq!(r.input_sample_rate(), 44100);
}

#[test]
fn recorder_downmixes_on_append() {
    let mut r = AudioRecorder::new();
    r.start(16000);
    r.append_samples(&vec![1i16, 3, 0, 0], 2);
    r.append_samples(&vec![10i16], 1);
    assert_eq!(r.buffered_len(), 3);
}

#[test]
fn recorder_stop_equal_rates_serializes_buffer() {
    let mut r = AudioRecorder::new();
    r.start(16000);
    r.append_samples(&vec![1i16, 3, 0, 0], 2);
    let bytes = r.stop();
    let mut expected = wav_header(16000, 2);
    expected.extend_from_slice(&[2, 0, 0, 0]);
    assert_eq!(bytes, expected);
}

#[test]
fn recorder_stop_resamples_to_target_rate() {
    let mut r = AudioRecorder::new();
    r.start(32000);
    r.append_samples(&vec![10i16, 20, 30, 40], 1);
    let bytes = r.stop();
    let mut expected = wav_header(16000, 2);
    expected.extend_from_slice(&[10, 0, 30, 0]);
    assert_eq!(bytes, expected);
}

#[test]
fn recorder_stop_empty_capture_is_valid_artifact() {
    let mut r = AudioRecorder::new();
    r.start(48000);
    let bytes = r.stop();
    assert_eq!(bytes, wav_header(16000, 0));
}
