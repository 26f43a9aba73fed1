use whistle::audio_recorder::{
    AudioRecorder, InputFormat, RecorderError, SILENCE_TIMEOUT_MS, SOUND_THRESHOLD,
};

const MONO: InputFormat = InputFormat { sample_rate: 16000, channels: 1 };

fn decode(bytes: &[u8]) -> (hound::WavSpec, Vec<i16>) {
    let reader = hound::WavReader::new(std::io::Cursor::new(bytes.to_vec())).unwrap();
    let spec = reader.spec();
    let samples = reader.into_samples::<i16>().map(|s| s.unwrap()).collect();
    (spec, samples)
}

#[test]
fn start_then_stop_without_samples_gives_none() {
    let mut r = AudioRecorder::new();
    assert_eq!(r.start_recording(Some(MONO)), Ok(()));
    assert!(r.is_recording());
    assert_eq!(r.stop_recording_and_get_bytes(), None);
    assert!(!r.is_recording());
}

#[test]
fn start_while_recording_is_refused() {
    let mut r = AudioRecorder::new();
    r.start_recording(Some(MONO)).unwrap();
    r.push_block(&vec![5, 6], 0);
    let other = InputFormat { sample_rate: 44100, channels: 2 };
    assert_eq!(r.start_recording(Some(other)), Err(RecorderError::AlreadyRecording));
    assert!(r.is_recording());
    // The running recording kept its samples and format.
    let bytes = r.stop_recording_and_get_bytes().unwrap();
    let (spec, samples) = decode(&bytes);
    assert_eq!(spec.sample_rate, 16000);
    assert_eq!(samples, vec![5, 6]);
}

#[test]
fn start_without_device_fails() {
    let mut r = AudioRecorder::new();
    assert_eq!(r.start_recording(None), Err(RecorderError::DeviceError));
    assert!(!r.is_recording());
}

#[test]
fn stop_when_idle_gives_none() {
    let mut r = AudioRecorder::new();
    assert_eq!(r.stop_recording_and_get_bytes(), None);
}

#[test]
fn recording_round_trips_through_the_container() {
    let mut r = AudioRecorder::new();
    r.start_recording(Some(MONO)).unwrap();
    let block1: Vec<i16> = vec![0, 32767, -32767, 1000, -1001];
    let block2: Vec<i16> = vec![12, -12];
    r.push_block(&block1, 0);
    r.push_block(&block2, 10);
    let bytes = r.stop_recording_and_get_bytes().unwrap();
    assert_eq!(&bytes[0..4], b"RIFF");
    assert_eq!(&bytes[8..12], b"WAVE");
    assert_eq!(bytes.len(), 44 + 2 * 7);
    let (spec, samples) = decode(&bytes);
    assert_eq!(spec.channels, 1);
    assert_eq!(spec.sample_rate, 16000);
    assert_eq!(spec.bits_per_sample, 16);
    assert_eq!(samples, vec![0, 32767, -32767, 1000, -1001, 12, -12]);
}

#[test]
fn stereo_recording_keeps_format() {
    let mut r = AudioRecorder::new();
    r.start_recording(Some(InputFormat { sample_rate: 48000, channels: 2 })).unwrap();
    r.push_block(&vec![1, 2, 3, 4], 0);
    let bytes = r.stop_recording_and_get_bytes().unwrap();
    assert_eq!(bytes.len(), 44 + 8);
    let (spec, samples) = decode(&bytes);
    assert_eq!(spec.channels, 2);
    assert_eq!(spec.sample_rate, 48000);
    assert_eq!(samples, vec![1, 2, 3, 4]);
}

#[test]
fn unfinished_frame_gives_none() {
    let mut r = AudioRecorder::new();
    r.start_recording(Some(InputFormat { sample_rate: 48000, channels: 2 })).unwrap();
    r.push_block(&vec![1, 2, 3], 0);
    assert_eq!(r.stop_recording_and_get_bytes(), None);
}

#[test]
fn unusable_format_gives_none() {
    let mut r = AudioRecorder::new();
    r.start_recording(Some(InputFormat { sample_rate: 0, channels: 1 })).unwrap();
    r.push_block(&vec![1], 0);
    assert_eq!(r.stop_recording_and_get_bytes(), None);
    r.start_recording(Some(InputFormat { sample_rate: 8000, channels: 0 })).unwrap();
    r.push_block(&vec![1], 0);
    assert_eq!(r.stop_recording_and_get_bytes(), None);
}

#[test]
fn new_recording_clears_previous_samples() {
    let mut r = AudioRecorder::new();
    r.start_recording(Some(MONO)).unwrap();
    r.push_block(&vec![9, 9, 9], 0);
    r.stop_recording_and_get_bytes().unwrap();
    r.start_recording(Some(MONO)).unwrap();
    r.push_block(&vec![4], 0);
    let (_, samples) = decode(&r.stop_recording_and_get_bytes().unwrap());
    assert_eq!(samples, vec![4]);
}

#[test]
fn blocks_while_idle_are_dropped() {
    let mut r = AudioRecorder::new();
    assert!(!r.push_block(&vec![1, 2], 100_000));
    r.start_recording(Some(MONO)).unwrap();
    assert_eq!(r.stop_recording_and_get_bytes(), None);
}

#[test]
fn reset_returns_to_idle() {
    let mut r = AudioRecorder::new();
    r.start_recording(Some(MONO)).unwrap();
    r.push_block(&vec![1, 2], 0);
    r.reset();
    assert!(!r.is_recording());
    assert_eq!(r.stop_recording_and_get_bytes(), None);
    assert_eq!(r.start_recording(Some(MONO)), Ok(()));
}

#[test]
fn silence_cancels_after_timeout_and_not_before() {
    let mut r = AudioRecorder::new();
    r.start_recording(Some(MONO)).unwrap();
    let quiet: Vec<i16> = vec![0, SOUND_THRESHOLD, -SOUND_THRESHOLD, 3];
    // The first block starts the clock, even when silent.
    assert!(!r.push_block(&quiet, 1_000));
    assert!(!r.push_block(&quiet, 1_000 + SILENCE_TIMEOUT_MS));
    assert!(r.push_block(&quiet, 1_000 + SILENCE_TIMEOUT_MS + 1));
    assert!(r.push_block(&quiet, 1_000 + 3 * SILENCE_TIMEOUT_MS));
}

#[test]
fn sound_restarts_the_silence_clock() {
    let mut r = AudioRecorder::new();
    r.start_recording(Some(MONO)).unwrap();
    assert!(!r.push_block(&vec![0], 0));
    // One sample just above the threshold counts as sound.
    assert!(!r.push_block(&vec![0, SOUND_THRESHOLD + 1], 5_000));
    assert!(!r.push_block(&vec![0], 5_000 + SILENCE_TIMEOUT_MS));
    assert!(r.push_block(&vec![0], 5_001 + SILENCE_TIMEOUT_MS));
    // A loud negative sample counts as well.
    assert!(!r.push_block(&vec![-SOUND_THRESHOLD - 1], 20_000));
    assert!(!r.push_block(&vec![0], 20_000 + SILENCE_TIMEOUT_MS));
}

#[test]
fn clock_going_backwards_counts_as_no_silence() {
    let mut r = AudioRecorder::new();
    r.start_recording(Some(MONO)).unwrap();
    assert!(!r.push_block(&vec![0], 50_000));
    assert!(!r.push_block(&vec![0], 10));
}

#[test]
fn stop_clears_silence_clock() {
    let mut r = AudioRecorder::new();
    r.start_recording(Some(MONO)).unwrap();
    r.push_block(&vec![0], 0);
    r.stop_recording_and_get_bytes();
    r.start_recording(Some(MONO)).unwrap();
    // First block of the new recording: no cancellation whatever the time.
    assert!(!r.push_block(&vec![0], 100_000));
}

#[test]
fn mono_container_layout() {
    let mut r = AudioRecorder::new();
    r.start_recording(Some(MONO)).unwrap();
    r.push_block(&vec![0x0102, -2], 0);
    let b = r.stop_recording_and_get_bytes().unwrap();
    assert_eq!(b.len(), 44 + 4);
    assert_eq!(&b[0..4], b"RIFF");
    assert_eq!(&b[4..8], &(36u32 + 4).to_le_bytes());
    assert_eq!(&b[8..16], b"WAVEfmt ");
    assert_eq!(&b[16..20], &16u32.to_le_bytes());
    assert_eq!(&b[20..24], &[1, 0, 1, 0]);
    assert_eq!(&b[24..28], &16000u32.to_le_bytes());
    assert_eq!(&b[28..32], &32000u32.to_le_bytes());
    assert_eq!(&b[32..36], &[2, 0, 16, 0]);
    assert_eq!(&b[36..40], b"data");
    assert_eq!(&b[40..44], &4u32.to_le_bytes());
    assert_eq!(&b[44..], &[0x02, 0x01, 0xfe, 0xff]);
}
