use audio_stego::codec::{check_capacity, decode_message, encode_message, StegoError};

fn bits_of(bytes: &[u8]) -> Vec<i32> {
    let mut out = Vec::new();
    for b in bytes {
        for k in 0..8 {
            out.push(((b >> (7 - k)) & 1) as i32);
        }
    }
    out
}

#[test]
fn ab_in_48_zero_samples() {
    let mut samples = vec![0i32; 48];
    let payload = vec![0x41u8, 0x42];
    assert_eq!(encode_message(&mut samples, &payload), Ok(()));
    let mut expected = vec![0i32; 30];
    expected.extend_from_slice(&[1, 0]);
    expected.extend_from_slice(&[0, 1, 0, 0, 0, 0, 0, 1]);
    expected.extend_from_slice(&[0, 1, 0, 0, 0, 0, 1, 0]);
    assert_eq!(samples, expected);
    assert_eq!(samples[47], 0);
    assert_eq!(decode_message(&samples), Ok(vec![0x41, 0x42]));
}

#[test]
fn ab_in_40_samples_is_refused() {
    let original: Vec<i32> = (0..40).map(|i| i * 7 - 100).collect();
    let mut samples = original.clone();
    let payload = vec![0x41u8, 0x42];
    assert_eq!(encode_message(&mut samples, &payload), Err(StegoError::InsufficientCapacity));
    assert_eq!(samples, original);
}

#[test]
fn capacity_boundary_exact_and_one_short() {
    let payload = vec![1u8, 2, 3];
    let mut exact = vec![5i32; 56];
    assert_eq!(encode_message(&mut exact, &payload), Ok(()));
    let mut short = vec![5i32; 55];
    assert_eq!(encode_message(&mut short, &payload), Err(StegoError::InsufficientCapacity));
    assert_eq!(check_capacity(3, 56), Ok(()));
    assert_eq!(check_capacity(3, 55), Err(StegoError::InsufficientCapacity));
    assert_eq!(check_capacity(0, 32), Ok(()));
    assert_eq!(check_capacity(0, 31), Err(StegoError::InsufficientCapacity));
    assert_eq!(check_capacity(0, 0), Err(StegoError::InsufficientCapacity));
    assert_eq!(check_capacity(usize::MAX, usize::MAX), Err(StegoError::InsufficientCapacity));
}

#[test]
fn round_trip_on_odd_and_negative_samples() {
    let payload: Vec<u8> = (0..50u32).map(|i| (i * 37 + 11) as u8).collect();
    let original: Vec<i32> = (0..600i32).map(|i| i * 12345 - 3_000_000 + (i % 3)).collect();
    let mut samples = original.clone();
    assert_eq!(encode_message(&mut samples, &payload), Ok(()));
    assert_eq!(decode_message(&samples), Ok(payload.clone()));
    for (i, (a, b)) in samples.iter().zip(original.iter()).enumerate() {
        if i < 432 {
            assert_eq!(a & !1, b & !1);
        } else {
            assert_eq!(a, b);
        }
    }
}

#[test]
fn samples_past_the_frame_are_untouched() {
    let original: Vec<i32> = vec![-1, 3, i32::MIN, i32::MAX, 7, -8, 9, 10];
    let mut samples = vec![0i32; 40];
    samples.extend_from_slice(&original);
    let payload = vec![0xffu8];
    assert_eq!(encode_message(&mut samples, &payload), Ok(()));
    assert_eq!(&samples[40..], &original[..]);
    assert_eq!(&samples[32..40], &[1, 1, 1, 1, 1, 1, 1, 1]);
}

#[test]
fn lsb_is_set_and_cleared() {
    let mut samples = vec![-1i32; 40];
    let payload = vec![0x80u8];
    assert_eq!(encode_message(&mut samples, &payload), Ok(()));
    assert_eq!(samples[0], -2);
    assert_eq!(samples[31], -1);
    assert_eq!(samples[32], -1);
    assert_eq!(samples[33], -2);
}

#[test]
fn empty_payload_takes_32_samples() {
    let original: Vec<i32> = (0..40).map(|i| 2 * i + 1).collect();
    let mut samples = original.clone();
    assert_eq!(encode_message(&mut samples, &Vec::new()), Ok(()));
    for i in 0..32 {
        assert_eq!(samples[i], original[i] - 1);
    }
    assert_eq!(&samples[32..], &original[32..]);
    assert_eq!(decode_message(&samples), Ok(Vec::new()));
    let mut exact = vec![9i32; 32];
    assert_eq!(encode_message(&mut exact, &Vec::new()), Ok(()));
    assert_eq!(decode_message(&exact), Ok(Vec::new()));
}

#[test]
fn truncated_carrier_is_incomplete() {
    let payload = vec![0x41u8, 0x42];
    let mut samples = vec![0i32; 48];
    encode_message(&mut samples, &payload).unwrap();
    for len in 0..48 {
        assert_eq!(decode_message(&samples[..len].to_vec()), Err(StegoError::IncompleteMessage));
    }
}

#[test]
fn prefix_announcing_too_much_is_incomplete() {
    let mut samples = bits_of(&[0, 0, 1, 0]);
    samples.extend(vec![0i32; 100]);
    assert_eq!(decode_message(&samples), Err(StegoError::IncompleteMessage));
    let mut huge = bits_of(&[0xff, 0xff, 0xff, 0xff]);
    huge.extend(vec![1i32; 64]);
    assert_eq!(decode_message(&huge), Err(StegoError::IncompleteMessage));
}

#[test]
fn decode_reads_frame_written_by_hand() {
    let mut samples = bits_of(&[0, 0, 0, 3, b'x', b'y', b'z']);
    samples.extend(vec![1i32; 5]);
    assert_eq!(decode_message(&samples), Ok(b"xyz".to_vec()));
}
