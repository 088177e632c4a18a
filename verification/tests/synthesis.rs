use morse_rs::synth::WAV;
use morse_rs::{clamp, samples_per_element, synthesize, Sound};

#[test]
fn test_clamp() {
    assert_eq!(100, clamp(127, 27, 0)); // under
    assert_eq!(154, clamp(127, 27, 155)); // over
    assert_eq!(120, clamp(127, 27, 120)); // within
    assert_eq!(127, clamp(127, 0, 225)); // no range
}

#[test]
fn test_samples_per_element_standard() {
    // 44100 samples/s at 20 words per minute: exactly 2646 per dot.
    assert_eq!(samples_per_element(44100, 20), Some(2646));
}

#[test]
fn test_samples_per_element_zero_wpm() {
    assert_eq!(samples_per_element(44100, 0), None);
}

#[test]
fn test_synthesize_length_is_total_duration() {
    let segs = vec![(Sound::On, 300), (Sound::Off, 5), (Sound::On, 1000)];
    let buf = synthesize(&segs);
    assert_eq!(buf.len(), 300 + 5 + 1000);
}

#[test]
fn test_synthesize_silence_is_zero() {
    let segs = vec![(Sound::Off, 10)];
    let buf = synthesize(&segs);
    assert_eq!(buf, vec![0; 10]);
}

#[test]
fn test_synthesize_exact_samples() {
    // Fade-in clamps the first samples toward the DC center 127:
    // WAV starts 128, 138, 149, ... and the band half-width is i/2.
    let buf = synthesize(&vec![(Sound::On, 3), (Sound::Off, 2)]);
    assert_eq!(buf, vec![127, 127, 128, 0, 0]);
}

#[test]
fn test_synthesize_middle_is_raw_waveform() {
    // Past the 256-sample fade windows the table is used unshaped.
    let buf = synthesize(&vec![(Sound::On, 600)]);
    assert_eq!(buf[300], WAV[300 % 75]);
    assert_eq!(buf[300], 128);
    assert_eq!(buf[299], WAV[299 % 75]);
    // The very last sample is clamped fully to the DC center.
    assert_eq!(buf[599], 127);
}

#[test]
fn test_synthesize_short_segment_does_not_panic() {
    // A segment shorter than the fade window stays inside the fade-in
    // band; the shaping logic must clamp, never underflow.
    let buf = synthesize(&vec![(Sound::On, 1)]);
    assert_eq!(buf, vec![127]);
    let buf = synthesize(&vec![(Sound::On, 0)]);
    assert_eq!(buf, Vec::<u8>::new());
}
