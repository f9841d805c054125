//! The wire frame: a 4-byte big-endian length prefix followed by the payload,
//! laid out one bit per carrier sample, most significant bit of each byte first.

use vstd::prelude::*;

verus! {

/// Number of carrier samples that the length prefix occupies.
pub const PREFIX_BITS: usize = 32;

/// The least-significant bit of a sample, as 0 or 1.
pub open spec fn lsb(s: i32) -> u8 {
    (s & 1i32) as u8
}

/// A sample whose least-significant bit is replaced by `bit` (0 or 1).
pub open spec fn with_lsb(s: i32, bit: u8) -> i32 {
    (s & !1i32) | (bit as i32)
}

/// The four big-endian bytes of `n`.
pub open spec fn be_bytes(n: u32) -> Seq<u8> {
    seq![(n >> 24u32) as u8, (n >> 16u32) as u8, (n >> 8u32) as u8, n as u8]
}

/// The value of four big-endian bytes.
pub open spec fn be_value(b0: u8, b1: u8, b2: u8, b3: u8) -> nat {
    (b0 as nat) * 16777216 + (b1 as nat) * 65536 + (b2 as nat) * 256 + (b3 as nat)
}

/// The bytes of the frame that carries `payload`.
pub open spec fn frame_bytes(payload: Seq<u8>) -> Seq<u8> {
    be_bytes(payload.len() as u32) + payload
}

/// How many carrier samples the frame of a payload of `payload_len` bytes takes.
pub open spec fn frame_bit_count(payload_len: nat) -> nat {
    (4 + payload_len) * 8
}

/// Bit `k` of a byte string, counting from the most significant bit of byte 0.
pub open spec fn bit_at(bytes: Seq<u8>, k: int) -> u8 {
    (bytes[k / 8] >> ((7 - k % 8) as u8)) & 1u8
}

/// The byte spelled by the least-significant bits of the eight samples from `start`.
pub open spec fn byte_from_lsbs(c: Seq<i32>, start: int) -> u8 {
    (lsb(c[start]) * 128 + lsb(c[start + 1]) * 64 + lsb(c[start + 2]) * 32 + lsb(c[start + 3]) * 16
        + lsb(c[start + 4]) * 8 + lsb(c[start + 5]) * 4 + lsb(c[start + 6]) * 2 + lsb(c[start + 7])) as u8
}

/// The payload length that the first 32 samples of a carrier announce.
pub open spec fn announced_len(c: Seq<i32>) -> nat {
    be_value(byte_from_lsbs(c, 0), byte_from_lsbs(c, 8), byte_from_lsbs(c, 16), byte_from_lsbs(c, 24))
}

/// The carrier holds a whole frame: the prefix and as many payload bytes as it announces.
pub open spec fn holds_frame(c: Seq<i32>) -> bool {
    c.len() >= 32 && frame_bit_count(announced_len(c)) <= c.len()
}

/// The payload that a carrier holding a whole frame carries.
pub open spec fn carried_payload(c: Seq<i32>) -> Seq<u8> {
    Seq::new(announced_len(c), |i: int| byte_from_lsbs(c, 32 + 8 * i))
}

/// The carrier after embedding `payload`: the frame's bits go into the
/// least-significant bits of the first samples, the rest is left as it was.
pub open spec fn embedded(c: Seq<i32>, payload: Seq<u8>) -> Seq<i32> {
    Seq::new(
        c.len(),
        |i: int|
            if i < frame_bit_count(payload.len()) {
                with_lsb(c[i], bit_at(frame_bytes(payload), i))
            } else {
                c[i]
            },
    )
}

/// Replacing a sample's least-significant bit by `bit` makes that bit read back.
pub proof fn lemma_lsb_of_with_lsb(s: i32, bit: u8)
    requires
        bit <= 1,
    ensures
        lsb(with_lsb(s, bit)) == bit,
{
    assert(bit <= 1 ==> ((s & !1i32) | (bit as i32)) & 1i32 == bit as i32) by (bit_vector);
}

/// A byte is the sum of its eight bits, each at its weight.
pub proof fn lemma_byte_of_bits(x: u8)
    ensures
        ((x >> 7u8) & 1u8) * 128 + ((x >> 6u8) & 1u8) * 64 + ((x >> 5u8) & 1u8) * 32 + ((x >> 4u8)
            & 1u8) * 16 + ((x >> 3u8) & 1u8) * 8 + ((x >> 2u8) & 1u8) * 4 + ((x >> 1u8) & 1u8) * 2
            + ((x >> 0u8) & 1u8) == x,
{
    assert(((x >> 7u8) & 1u8) * 128 + ((x >> 6u8) & 1u8) * 64 + ((x >> 5u8) & 1u8) * 32 + ((x
        >> 4u8) & 1u8) * 16 + ((x >> 3u8) & 1u8) * 8 + ((x >> 2u8) & 1u8) * 4 + ((x >> 1u8) & 1u8)
        * 2 + ((x >> 0u8) & 1u8) == x) by (bit_vector);
}

/// The big-endian bytes of `n` have the value `n`.
pub proof fn lemma_be_value_of_be_bytes(n: u32)
    ensures
        be_value(be_bytes(n)[0], be_bytes(n)[1], be_bytes(n)[2], be_bytes(n)[3]) == n,
{
    assert(((n >> 24u32) as u8) as u32 * 16777216 + ((n >> 16u32) as u8) as u32 * 65536 + ((n
        >> 8u32) as u8) as u32 * 256 + (n as u8) as u32 == n) by (bit_vector);
}

proof fn lemma_bit_position(m: int, j: int)
    requires
        0 <= m,
        0 <= j < 8,
    ensures
        (8 * m + j) / 8 == m,
        (8 * m + j) % 8 == j,
{
    assert((8 * m + j) / 8 == m) by (nonlinear_arith)
        requires
            0 <= m,
            0 <= j < 8,
    ;
    assert((8 * m + j) % 8 == j) by (nonlinear_arith)
        requires
            0 <= m,
            0 <= j < 8,
    ;
}

proof fn lemma_embedded_bit(c: Seq<i32>, p: Seq<u8>, m: int, j: int)
    requires
        frame_bit_count(p.len()) <= c.len(),
        0 <= m < 4 + p.len(),
        0 <= j < 8,
    ensures
        lsb(embedded(c, p)[8 * m + j]) == (frame_bytes(p)[m] >> ((7 - j) as u8)) & 1u8,
{
    let f = frame_bytes(p);
    lemma_bit_position(m, j);
    let x = f[m];
    let sh = (7 - j) as u8;
    assert((x >> sh) & 1u8 <= 1) by (bit_vector);
    assert(bit_at(f, 8 * m + j) == (x >> sh) & 1u8);
    lemma_lsb_of_with_lsb(c[8 * m + j], bit_at(f, 8 * m + j));
}

/// Byte `m` of the frame reads back from the eight samples that carry it.
proof fn lemma_embedded_byte(c: Seq<i32>, p: Seq<u8>, m: int)
    requires
        frame_bit_count(p.len()) <= c.len(),
        0 <= m < 4 + p.len(),
    ensures
        byte_from_lsbs(embedded(c, p), 8 * m) == frame_bytes(p)[m],
{
    lemma_embedded_bit(c, p, m, 0);
    lemma_embedded_bit(c, p, m, 1);
    lemma_embedded_bit(c, p, m, 2);
    lemma_embedded_bit(c, p, m, 3);
    lemma_embedded_bit(c, p, m, 4);
    lemma_embedded_bit(c, p, m, 5);
    lemma_embedded_bit(c, p, m, 6);
    lemma_embedded_bit(c, p, m, 7);
    assert(8 * m + 0 == 8 * m);
    lemma_byte_of_bits(frame_bytes(p)[m]);
}

/// Embedding a payload and reading the carrier back gives the payload.
pub proof fn lemma_round_trip(c: Seq<i32>, p: Seq<u8>)
    requires
        p.len() <= u32::MAX,
        frame_bit_count(p.len()) <= c.len(),
    ensures
        holds_frame(embedded(c, p)),
        announced_len(embedded(c, p)) == p.len(),
        carried_payload(embedded(c, p)) == p,
{
    let e = embedded(c, p);
    let f = frame_bytes(p);
    lemma_embedded_byte(c, p, 0);
    lemma_embedded_byte(c, p, 1);
    lemma_embedded_byte(c, p, 2);
    lemma_embedded_byte(c, p, 3);
    lemma_be_value_of_be_bytes(p.len() as u32);
    assert(announced_len(e) == p.len());
    assert forall|i: int| 0 <= i < p.len() implies #[trigger] carried_payload(e)[i] == p[i] by {
        lemma_embedded_byte(c, p, 4 + i);
        assert(8 * (4 + i) == 32 + 8 * i);
        assert(f[4 + i] == p[i]);
    }
    assert(carried_payload(e) =~= p);
}

/// The least-significant bit of `s`, as 0 or 1.
pub fn sample_lsb(s: i32) -> (r: u8)
    ensures
        r == lsb(s),
        r <= 1,
{
    assert((s & 1i32) as u8 <= 1) by (bit_vector);
    (s & 1i32) as u8
}

/// `s` with its least-significant bit replaced by `bit`.
pub fn set_sample_lsb(s: i32, bit: u8) -> (r: i32)
    ensures
        r == with_lsb(s, bit),
{
    (s & !1i32) | (bit as i32)
}

/// Bit `k` of `bytes`, counting from the most significant bit of byte 0.
pub fn bit_of_bytes(bytes: &Vec<u8>, k: usize) -> (r: u8)
    requires
        k < bytes@.len() * 8,
    ensures
        r == bit_at(bytes@, k as int),
        r <= 1,
{
    let b = bytes[k / 8];
    let shift = (7 - k % 8) as u8;
    assert((b >> shift) & 1u8 <= 1) by (bit_vector);
    (b >> shift) & 1u8
}

/// The byte spelled by the least-significant bits of the eight samples from `start`.
pub fn byte_from_samples(samples: &Vec<i32>, start: usize) -> (r: u8)
    requires
        start + 8 <= samples@.len(),
    ensures
        r == byte_from_lsbs(samples@, start as int),
{
    let len = samples.len();
    assert(start + 8 <= len);
    let b0 = sample_lsb(samples[start]);
    let b1 = sample_lsb(samples[start + 1]);
    let b2 = sample_lsb(samples[start + 2]);
    let b3 = sample_lsb(samples[start + 3]);
    let b4 = sample_lsb(samples[start + 4]);
    let b5 = sample_lsb(samples[start + 5]);
    let b6 = sample_lsb(samples[start + 6]);
    let b7 = sample_lsb(samples[start + 7]);
    b0 * 128 + b1 * 64 + b2 * 32 + b3 * 16 + b4 * 8 + b5 * 4 + b6 * 2 + b7
}

} // verus!
