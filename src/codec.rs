//! Embedding a payload into a carrier's sample stream and reading it back.

use vstd::prelude::*;
use crate::frame::{
    announced_len, be_bytes, bit_of_bytes, byte_from_lsbs, byte_from_samples, carried_payload,
    embedded, frame_bit_count, frame_bytes, holds_frame, lemma_round_trip, set_sample_lsb,
    with_lsb, bit_at, PREFIX_BITS,
};

verus! {

/// Why a carrier could not take or give back a payload.
#[derive(Debug, Clone, Copy, PartialEq, Eq, Structural)]
pub enum StegoError {
    /// The carrier has fewer samples than the frame of the payload needs.
    InsufficientCapacity,
    /// The carrier ended before a whole frame was read back.
    IncompleteMessage,
}

/// Whether a payload of `payload_len` bytes fits in `sample_count` samples.
pub open spec fn fits(payload_len: nat, sample_count: nat) -> bool {
    frame_bit_count(payload_len) <= sample_count
}

/// Decides up front whether a payload of `payload_len` bytes fits in a carrier
/// of `sample_count` samples, counting the 32 samples of the length prefix.
pub fn check_capacity(payload_len: usize, sample_count: usize) -> (r: Result<(), StegoError>)
    ensures
        r is Ok <==> fits(payload_len as nat, sample_count as nat),
        r is Err ==> r == Err::<(), StegoError>(StegoError::InsufficientCapacity),
{
    let whole_bytes = sample_count / 8;
    assert((4 + payload_len) * 8 <= sample_count <==> 4 + payload_len <= sample_count / 8)
        by (nonlinear_arith);
    if whole_bytes < 4 || payload_len > whole_bytes - 4 {
        Err(StegoError::InsufficientCapacity)
    } else {
        Ok(())
    }
}

/// The frame of `payload`: its length as four big-endian bytes, then the payload.
pub fn build_frame(payload: &Vec<u8>) -> (r: Vec<u8>)
    requires
        payload@.len() <= u32::MAX,
    ensures
        r@ == frame_bytes(payload@),
{
    let n = payload.len() as u32;
    let mut frame: Vec<u8> = Vec::new();
    frame.push((n >> 24u32) as u8);
    frame.push((n >> 16u32) as u8);
    frame.push((n >> 8u32) as u8);
    frame.push(n as u8);
    assert(frame@ == be_bytes(n));
    let mut i: usize = 0;
    while i < payload.len()
        invariant
            i <= payload@.len(),
            frame@ == be_bytes(n) + payload@.subrange(0, i as int),
        decreases payload@.len() - i,
    {
        frame.push(payload[i]);
        i += 1;
        assert(frame@ =~= be_bytes(n) + payload@.subrange(0, i as int));
    }
    assert(payload@.subrange(0, i as int) =~= payload@);
    frame
}

/// Hides `payload` in the least-significant bits of `samples`.
///
/// The frame (length prefix, then payload) goes one bit per sample into the
/// first samples, most significant bit of each byte first; every sample past
/// the frame is left exactly as it was. When the frame does not fit, nothing
/// is changed and `InsufficientCapacity` is returned.
pub fn encode_message(samples: &mut Vec<i32>, payload: &Vec<u8>) -> (r: Result<(), StegoError>)
    requires
        payload@.len() <= u32::MAX,
    ensures
        r is Ok <==> fits(payload@.len(), old(samples)@.len()),
        r is Ok ==> final(samples)@ == embedded(old(samples)@, payload@),
        r is Err ==> r == Err::<(), StegoError>(StegoError::InsufficientCapacity),
        r is Err ==> final(samples)@ == old(samples)@,
        final(samples)@.len() == old(samples)@.len(),
        forall|i: int|
            frame_bit_count(payload@.len()) <= i < old(samples)@.len()
                ==> #[trigger] final(samples)@[i] == old(samples)@[i],
{
    match check_capacity(payload.len(), samples.len()) {
        Err(e) => {
            return Err(e);
        },
        Ok(()) => {},
    }
    let ghost orig = samples@;
    let frame = build_frame(payload);
    let total = frame.len() * 8;
    let mut i: usize = 0;
    while i < total
        invariant
            samples@.len() == orig.len(),
            total == frame@.len() * 8,
            frame@ == frame_bytes(payload@),
            total == frame_bit_count(payload@.len()),
            total <= orig.len(),
            i <= total,
            forall|j: int| 0 <= j < i ==> #[trigger] samples@[j] == with_lsb(orig[j], bit_at(frame@, j)),
            forall|j: int| i <= j < orig.len() ==> #[trigger] samples@[j] == orig[j],
        decreases total - i,
    {
        let bit = bit_of_bytes(&frame, i);
        let s = set_sample_lsb(samples[i], bit);
        samples.set(i, s);
        i += 1;
    }
    assert(samples@ =~= embedded(orig, payload@));
    Ok(())
}

/// Reads back the payload hidden in the least-significant bits of `samples`.
///
/// The first 32 samples give the payload length; the payload follows. When the
/// carrier ends before the whole frame, `IncompleteMessage` is returned and no
/// partial payload is handed out.
pub fn decode_message(samples: &Vec<i32>) -> (r: Result<Vec<u8>, StegoError>)
    ensures
        r is Ok <==> holds_frame(samples@),
        r matches Ok(v) ==> v@ == carried_payload(samples@),
        r matches Err(e) ==> e == StegoError::IncompleteMessage,
{
    let n = samples.len();
    if n < PREFIX_BITS {
        return Err(StegoError::IncompleteMessage);
    }
    let b0 = byte_from_samples(samples, 0);
    let b1 = byte_from_samples(samples, 8);
    let b2 = byte_from_samples(samples, 16);
    let b3 = byte_from_samples(samples, 24);
    let len: u64 = b0 as u64 * 16777216 + b1 as u64 * 65536 + b2 as u64 * 256 + b3 as u64;
    assert(len == announced_len(samples@));
    if (len + 4) * 8 > n as u64 {
        return Err(StegoError::IncompleteMessage);
    }
    let len = len as usize;
    let mut out: Vec<u8> = Vec::new();
    let mut k: usize = 0;
    while k < len
        invariant
            n == samples@.len(),
            len == announced_len(samples@),
            (len + 4) * 8 <= n,
            k <= len,
            out@.len() == k,
            forall|i: int| 0 <= i < k ==> #[trigger] out@[i] == byte_from_lsbs(samples@, 32 + 8 * i),
        decreases len - k,
    {
        let b = byte_from_samples(samples, 32 + 8 * k);
        out.push(b);
        k += 1;
    }
    assert(out@ =~= carried_payload(samples@));
    Ok(out)
}

/// A payload fits exactly when the carrier has as many samples as its frame
/// has bits: one sample fewer is already too few.
pub proof fn capacity_boundary(payload_len: nat, sample_count: nat)
    ensures
        frame_bit_count(payload_len) == sample_count ==> fits(payload_len, sample_count),
        frame_bit_count(payload_len) == sample_count + 1 ==> !fits(payload_len, sample_count),
{
}

/// Every carrier with room for the frame gives back, once the payload is
/// embedded, exactly that payload.
pub proof fn round_trip(carrier: Seq<i32>, payload: Seq<u8>)
    requires
        payload.len() <= u32::MAX,
        fits(payload.len(), carrier.len()),
    ensures
        holds_frame(embedded(carrier, payload)),
        carried_payload(embedded(carrier, payload)) == payload,
{
    lemma_round_trip(carrier, payload);
}

/// The empty payload takes exactly the 32 samples of the length prefix,
/// leaves every later sample alone, and reads back as the empty payload.
pub proof fn empty_payload(carrier: Seq<i32>)
    requires
        carrier.len() >= 32,
    ensures
        frame_bit_count(0) == 32,
        holds_frame(embedded(carrier, Seq::<u8>::empty())),
        carried_payload(embedded(carrier, Seq::<u8>::empty())) == Seq::<u8>::empty(),
        forall|i: int|
            32 <= i < carrier.len() ==> #[trigger] embedded(carrier, Seq::<u8>::empty())[i]
                == carrier[i],
{
    lemma_round_trip(carrier, Seq::<u8>::empty());
}

/// A carrier that announces more payload than its samples can hold never
/// reads back as a payload.
pub proof fn truncation_detected(carrier: Seq<i32>)
    requires
        carrier.len() < 32 || carrier.len() < frame_bit_count(announced_len(carrier)),
    ensures
        !holds_frame(carrier),
{
}

} // verus!
