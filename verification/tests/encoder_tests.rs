use mumu_remote::capture::Frame;
use mumu_remote::encoder::{bgra_to_rgb_bytes, EncodeError, Encoder};

#[test]
fn new_rejects_non_positive_dimensions() {
    assert!(Encoder::new(0, 100, 60, 1_000_000).is_err());
    assert!(Encoder::new(100, 0, 60, 1_000_000).is_err());
}

#[test]
fn new_rejects_zero_rate() {
    assert!(Encoder::new(100, 100, 0, 1_000_000).is_err());
    assert!(Encoder::new(100, 100, 60, 0).is_err());
    assert!(Encoder::new(100, 100, 60, 1_000_000).is_ok());
}

#[test]
fn encode_rejects_mismatched_size() {
    let mut encoder = Encoder::new(100, 100, 60, 1_000_000).unwrap();
    let frame = Frame {
        width: 50,
        height: 50,
        bgra: vec![0; 50 * 50 * 4],
    };
    let result = encoder.encode(&frame);
    assert!(matches!(result, Err(EncodeError)));
}

#[test]
fn encode_produces_non_empty_jpeg() {
    let mut encoder = Encoder::new(2, 2, 60, 1_000_000).unwrap();
    let frame = Frame {
        width: 2,
        height: 2,
        bgra: vec![
            0, 0, 255, 255, 0, 255, 0, 255, 255, 0, 0, 255, 255, 255, 255, 255,
        ],
    };
    let encoded = encoder.encode(&frame).expect("encode should succeed");
    assert!(!encoded.is_empty());
    assert_eq!(encoded[0], 0xFF);
    assert_eq!(encoded[1], 0xD8);
}

#[test]
fn encode_rejects_sides_above_jpeg_limit() {
    let mut encoder = Encoder::new(65536, 1, 60, 1_000_000).unwrap();
    let frame = Frame {
        width: 65536,
        height: 1,
        bgra: Vec::new(),
    };
    assert!(encoder.encode(&frame).is_err());
}

#[test]
fn bgra_is_converted_to_rgb() {
    let bgra = vec![1, 2, 3, 4, 5, 6, 7, 8, 9];
    assert_eq!(bgra_to_rgb_bytes(&bgra, 3), vec![3, 2, 1, 7, 6, 5, 0, 0, 0]);
}
