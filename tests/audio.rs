use whisper_paste::resample::resample;
use whisper_paste::wav::{samples_to_wav, TARGET_SAMPLE_RATE};

fn lerp(a: f32, b: f32, num: u32, den: u32) -> f32 {
    let frac = num as f32 / den as f32;
    a * (1.0 - frac) + b * frac
}

fn read_u32(b: &[u8], at: usize) -> u32 {
    u32::from_le_bytes([b[at], b[at + 1], b[at + 2], b[at + 3]])
}

#[test]
fn wav_output_has_valid_header() {
    let samples = vec![0i16; 16000];
    let wav = samples_to_wav(&samples);

    assert_eq!(&wav[0..4], b"RIFF");
    assert_eq!(&wav[8..12], b"WAVE");
}

#[test]
fn wav_output_correct_for_empty_input() {
    let samples: Vec<i16> = vec![];
    let wav = samples_to_wav(&samples);

    assert_eq!(&wav[0..4], b"RIFF");
    assert!(wav.len() >= 44);
}

#[test]
fn wav_clamps_extreme_values() {
    let samples = vec![i16::MIN, i16::MAX, 16383, -16383];
    let wav = samples_to_wav(&samples);

    assert_eq!(&wav[0..4], b"RIFF");
}

#[test]
fn wav_preserves_sample_count() {
    let n = 480;
    let samples = vec![3276i16; n];
    let wav = samples_to_wav(&samples);

    let reader = hound::WavReader::new(std::io::Cursor::new(wav)).unwrap();
    assert_eq!(reader.spec().channels, 1);
    assert_eq!(reader.spec().sample_rate, TARGET_SAMPLE_RATE);
    assert_eq!(reader.len() as usize, n);
}

#[test]
fn wav_exact_bytes_for_two_samples() {
    let wav = samples_to_wav(&[1i16, -2]);
    assert_eq!(wav.len(), 48);
    assert_eq!(read_u32(&wav, 4), 40);
    assert_eq!(&wav[12..16], b"fmt ");
    assert_eq!(read_u32(&wav, 16), 16);
    assert_eq!(&wav[20..24], &[1, 0, 1, 0]);
    assert_eq!(read_u32(&wav, 24), 16000);
    assert_eq!(read_u32(&wav, 28), 32000);
    assert_eq!(&wav[32..36], &[2, 0, 16, 0]);
    assert_eq!(&wav[36..40], b"data");
    assert_eq!(read_u32(&wav, 40), 4);
    assert_eq!(&wav[44..48], &[1, 0, 0xfe, 0xff]);
}

#[test]
fn wav_decodes_back_to_the_same_samples() {
    let samples = vec![i16::MIN, i16::MAX, 0, 1234, -1];
    let wav = samples_to_wav(&samples);
    let mut reader = hound::WavReader::new(std::io::Cursor::new(wav)).unwrap();
    assert_eq!(reader.spec().bits_per_sample, 16);
    let back: Vec<i16> = reader.samples::<i16>().map(|s| s.unwrap()).collect();
    assert_eq!(back, samples);
}

#[test]
fn resample_same_rate_is_identity() {
    let input = vec![1.0f32, 2.0, 3.0, 4.0];
    let output = resample(&input, 16000, 16000, lerp);
    assert_eq!(input, output);
}

#[test]
fn resample_downsample_halves_length() {
    let input: Vec<f32> = (0..1000).map(|i| i as f32).collect();
    let output = resample(&input, 48000, 16000, lerp);
    // 48kHz -> 16kHz = 1/3 the samples
    let expected_len = (1000.0 / 3.0) as usize;
    assert!((output.len() as i32 - expected_len as i32).abs() <= 1);
}

#[test]
fn resample_empty_input() {
    let output = resample(&[], 48000, 16000, lerp);
    assert!(output.is_empty());
}

#[test]
fn resample_upsample_interpolates() {
    let output = resample(&vec![0.0f32, 1.0], 1, 2, lerp);
    assert_eq!(output, vec![0.0, 0.5, 1.0, 1.0]);
}

#[test]
fn resample_downsample_picks_every_third() {
    let input: Vec<f32> = (0..9).map(|i| i as f32).collect();
    let output = resample(&input, 48000, 16000, lerp);
    assert_eq!(output, vec![0.0, 3.0, 6.0]);
}

#[test]
fn resample_fractional_positions() {
    // 3 -> 2: positions 0, 1.5, 3, 4.5
    let input = vec![0.0f32, 2.0, 4.0, 6.0, 8.0, 10.0];
    let output = resample(&input, 3, 2, lerp);
    assert_eq!(output, vec![0.0, 3.0, 6.0, 9.0]);
}

#[test]
fn resample_same_rate_any_rate() {
    let input = vec![5i32, -3, 7];
    for r in [1u32, 8000, 44100, 48000, u32::MAX] {
        assert_eq!(resample(&input, r, r, |a: i32, _b: i32, _n: u32, _d: u32| a), input);
    }
}

#[test]
fn resample_empty_any_rates() {
    let empty: Vec<f32> = vec![];
    assert!(resample(&empty, 44100, 16000, lerp).is_empty());
    assert!(resample(&empty, 8000, 48000, lerp).is_empty());
    assert!(resample(&empty, 0, 16000, lerp).is_empty());
    assert!(resample(&empty, 16000, 0, lerp).is_empty());
}

#[test]
fn resample_length_within_one_of_ratio() {
    let input = vec![0.25f32; 1001];
    for (from, to) in [(44100u32, 16000u32), (48000, 16000), (8000, 16000), (22050, 16000)] {
        let out = resample(&input, from, to, lerp);
        let exact = 1001.0f64 * to as f64 / from as f64;
        assert!((out.len() as f64 - exact).abs() <= 1.0);
    }
}

#[test]
fn native_rate_48000_900_samples_gives_300() {
    let raw = vec![0.0f32; 900];
    let out = resample(&raw, 48000, TARGET_SAMPLE_RATE, lerp);
    assert!((out.len() as i64 - 300).abs() <= 1);
    assert_eq!(out.len(), 300);
}

#[test]
fn three_seconds_of_silence_at_16000() {
    let raw = vec![0.0f32; 3 * 16000];
    let out = resample(&raw, 16000, TARGET_SAMPLE_RATE, lerp);
    assert_eq!(out.len(), 48000);
    let pcm: Vec<i16> = out.iter().map(|&s| s as i16).collect();
    let wav = samples_to_wav(&pcm);
    let reader = hound::WavReader::new(std::io::Cursor::new(wav)).unwrap();
    assert_eq!(reader.spec().sample_rate, 16000);
    assert_eq!(reader.spec().channels, 1);
    assert_eq!(reader.len(), 48000);
}
