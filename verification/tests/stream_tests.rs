use mumu_remote::stream::stream_fps;
use mumu_remote::capture::Frame;
use mumu_remote::encoder::Encoder;
use mumu_remote::stream::{encode_for_stream, frame_interval_ms, next_frame_index, stream_header};

#[test]
fn frame_interval_follows_fps() {
    assert_eq!(frame_interval_ms(60), 16);
    assert_eq!(frame_interval_ms(0), 1000);
    assert_eq!(frame_interval_ms(1), 1000);
    assert_eq!(frame_interval_ms(5000), 1);
}

#[test]
fn header_and_index() {
    let h = stream_header(7, 99);
    assert_eq!(h.session_id, 1);
    assert_eq!(h.frame_index, 7);
    assert_eq!(h.chunk_index, 0);
    assert_eq!(h.chunk_count, 0);
    assert_eq!(h.timestamp_micros, 99);
    assert_eq!(next_frame_index(u32::MAX, true), 0);
    assert_eq!(next_frame_index(4, false), 4);
    assert_eq!(next_frame_index(4, true), 5);
}

#[test]
fn encoder_is_made_from_first_frame() {
    let mut encoder: Option<Encoder> = None;
    let empty = Frame { width: 0, height: 0, bgra: Vec::new() };
    assert!(encode_for_stream(&mut encoder, &empty, 60).is_none());
    assert!(encoder.is_none());
    let frame = Frame { width: 2, height: 1, bgra: vec![0, 0, 255, 255, 255, 0, 0, 255] };
    let jpeg = encode_for_stream(&mut encoder, &frame, 60).unwrap();
    assert_eq!(&jpeg[..2], &[0xFF, 0xD8]);
    assert!(encoder.is_some());
    let other = Frame { width: 1, height: 1, bgra: vec![0, 0, 0, 255] };
    assert!(encode_for_stream(&mut encoder, &other, 60).is_none());
}

#[test]
fn stream_fps_is_at_least_one() {
    assert_eq!(stream_fps(0), 1);
    assert_eq!(stream_fps(90), 90);
}
