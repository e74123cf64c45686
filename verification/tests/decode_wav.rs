use std::io::Cursor;
use wavplayer::PlayerError;
use wavplayer::decode::decode_wav;
use wavplayer::player::{PlaybackConfig, Player};

fn wav_bytes(rate: u32, channels: u16, samples: &[i16]) -> Vec<u8> {
    let spec = hound::WavSpec {
        channels,
        sample_rate: rate,
        bits_per_sample: 16,
        sample_format: hound::SampleFormat::Int,
    };
    let mut cursor = Cursor::new(Vec::new());
    let mut writer = hound::WavWriter::new(&mut cursor, spec).unwrap();
    for s in samples {
        writer.write_sample(*s).unwrap();
    }
    writer.finalize().unwrap();
    cursor.into_inner()
}

#[test]
fn decode_roundtrip_preserves_format_and_samples() {
    let samples: Vec<i16> = vec![1, -1, i16::MAX, i16::MIN, 0, 1234];
    let bytes = wav_bytes(44100, 2, &samples);
    let track = decode_wav(&bytes).unwrap();
    assert_eq!(track.sample_rate, 44100);
    assert_eq!(track.channels, 2);
    assert_eq!(track.samples, samples);
}

#[test]
fn decode_mono_roundtrip() {
    let samples: Vec<i16> = vec![7, 8, 9];
    let bytes = wav_bytes(22050, 1, &samples);
    let track = decode_wav(&bytes).unwrap();
    assert_eq!(track.sample_rate, 22050);
    assert_eq!(track.channels, 1);
    assert_eq!(track.samples, samples);
}

#[test]
fn malformed_bytes_are_a_format_error() {
    assert_eq!(decode_wav(&vec![1u8, 2, 3, 4]).unwrap_err(), PlayerError::FormatError);
    assert_eq!(decode_wav(&Vec::new()).unwrap_err(), PlayerError::FormatError);
}

#[test]
fn truncated_wav_is_a_format_error() {
    let mut bytes = wav_bytes(44100, 2, &[1, 2, 3, 4]);
    bytes.truncate(bytes.len() - 3);
    assert_eq!(decode_wav(&bytes).unwrap_err(), PlayerError::FormatError);
}

#[test]
fn load_from_bytes_fills_the_buffer() {
    let cfg = PlaybackConfig { channels: 2, sample_rate: 44100 };
    let mut p = Player::new(vec!["a.wav".to_string()], cfg).unwrap();
    let bytes = wav_bytes(44100, 2, &[11, 22, 33, 44]);
    p.load_from_bytes(&bytes).unwrap();
    assert_eq!(p.buffered_len(), 4);
    assert_eq!(p.fill_frames(4), vec![11, 22, 33, 44]);
}

#[test]
fn load_from_bytes_rate_mismatch_keeps_prior_contents() {
    let cfg = PlaybackConfig { channels: 2, sample_rate: 48000 };
    let mut p = Player::new(vec!["a.wav".to_string()], cfg).unwrap();
    let good = wav_bytes(48000, 2, &[5, 6]);
    p.load_from_bytes(&good).unwrap();

    let wrong_rate = wav_bytes(44100, 2, &[1, 2]);
    assert_eq!(p.load_from_bytes(&wrong_rate), Err(PlayerError::SampleRateMismatch));
    assert_eq!(p.buffered_len(), 2);
    assert_eq!(p.fill_frames(2), vec![5, 6]);
}

#[test]
fn load_from_bytes_channel_mismatch_keeps_prior_contents() {
    let cfg = PlaybackConfig { channels: 2, sample_rate: 44100 };
    let mut p = Player::new(vec!["a.wav".to_string()], cfg).unwrap();
    let good = wav_bytes(44100, 2, &[5, 6]);
    p.load_from_bytes(&good).unwrap();

    let mono = wav_bytes(44100, 1, &[1]);
    assert_eq!(p.load_from_bytes(&mono), Err(PlayerError::ChannelCountMismatch));
    assert_eq!(p.buffered_len(), 2);
}

#[test]
fn load_from_bytes_format_error_keeps_prior_contents() {
    let cfg = PlaybackConfig { channels: 2, sample_rate: 44100 };
    let mut p = Player::new(vec!["a.wav".to_string()], cfg).unwrap();
    let good = wav_bytes(44100, 2, &[5, 6]);
    p.load_from_bytes(&good).unwrap();

    assert_eq!(p.load_from_bytes(&vec![0u8; 10]), Err(PlayerError::FormatError));
    assert_eq!(p.buffered_len(), 2);
}
