//! The layout of generated carrier files.

use vstd::prelude::*;

verus! {

/// Bytes in a canonical WAV header.
pub const WAV_HEADER_BYTES: usize = 44;

/// Bytes in one 32-bit sample.
pub const BYTES_PER_SAMPLE: usize = 4;

/// Channels in a generated carrier.
pub const GENERATED_CHANNELS: u16 = 2;

/// Sample rate of a generated carrier, in Hz.
pub const GENERATED_SAMPLE_RATE: u32 = 44100;

/// Bits per sample of a generated carrier.
pub const GENERATED_BITS_PER_SAMPLE: u16 = 32;

/// How many sample frames a generated carrier of about `target_file_size`
/// bytes gets: the bytes past the header, four to a frame.
pub fn frames_for_file_size(target_file_size: usize) -> (r: usize)
    ensures
        target_file_size <= WAV_HEADER_BYTES ==> r == 0,
        target_file_size > WAV_HEADER_BYTES ==> r == (target_file_size - WAV_HEADER_BYTES)
            / BYTES_PER_SAMPLE as int,
{
    let audio_bytes = if target_file_size > WAV_HEADER_BYTES {
        target_file_size - WAV_HEADER_BYTES
    } else {
        0
    };
    audio_bytes / BYTES_PER_SAMPLE
}

} // verus!
