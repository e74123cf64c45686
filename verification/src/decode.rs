//! The decode bridge's parse step: turning the bytes of a WAV file into a
//! sample rate, a channel count and a sequence of raw 16-bit samples, or a
//! format error when the bytes are not a readable WAVE stream.

use vstd::prelude::*;
use crate::PlayerError;

verus! {

/// What the WAVE decoder yields for a given byte stream: the header's sample
/// rate and channel count and the decoded 16-bit samples in order, or nothing
/// when the stream is malformed. The result is a function of the bytes alone.
pub uninterp spec fn wav_decode_of(bytes: Seq<u8>) -> Option<(u32, u16, Seq<i16>)>;

/// A track decoded into plain values: the format read from the file's header
/// and the raw samples, interleaved as stored.
#[derive(Debug)]
pub struct DecodedTrack {
    pub sample_rate: u32,
    pub channels: u16,
    pub samples: Vec<i16>,
}

/// Relies on hound::WavReader: parsing a WAVE stream held in memory and
/// reading all of its samples as 16-bit values depends on the bytes alone;
/// any read or sample error makes the whole parse fail.
#[verifier::external_body]
fn decode_wav_bytes(bytes: &Vec<u8>) -> (r: Option<DecodedTrack>)
    ensures
        match (r, wav_decode_of(bytes@)) {
            (Some(t), Some(m)) => t.sample_rate == m.0 && t.channels == m.1 && t.samples@ == m.2,
            (None, None) => true,
            _ => false,
        },
{
    let reader = match hound::WavReader::new(std::io::Cursor::new(bytes.as_slice())) {
        Ok(reader) => reader,
        Err(_) => return None,
    };
    let spec = reader.spec();
    let mut reader = reader;
    let samples: Result<Vec<i16>, hound::Error> = reader.samples::<i16>().collect();
    match samples {
        Ok(samples) => Some(DecodedTrack { sample_rate: spec.sample_rate, channels: spec.channels, samples }),
        Err(_) => None,
    }
}

/// Parses the bytes of a WAV file. Returns the decoded track exactly when the
/// decoder can read the stream, and `FormatError` otherwise.
pub fn decode_wav(bytes: &Vec<u8>) -> (r: Result<DecodedTrack, PlayerError>)
    ensures
        match wav_decode_of(bytes@) {
            Some(m) => r matches Ok(t) && t.sample_rate == m.0 && t.channels == m.1
                && t.samples@ == m.2,
            None => r == Err::<DecodedTrack, PlayerError>(PlayerError::FormatError),
        },
{
    match decode_wav_bytes(bytes) {
        Some(track) => Ok(track),
        None => Err(PlayerError::FormatError),
    }
}

} // verus!
