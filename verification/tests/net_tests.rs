use mumu_remote::net::{frame_packets, timestamp_from_micros, VideoPacketHeader, HEADER_SIZE};

#[test]
fn header_roundtrip() {
    let header = VideoPacketHeader {
        session_id: 1,
        frame_index: 2,
        chunk_index: 3,
        chunk_count: 4,
        timestamp_micros: 5,
    };
    let bytes = header.to_bytes();
    let decoded = VideoPacketHeader::from_bytes(&bytes).unwrap();
    assert_eq!(header, decoded);
}

#[test]
fn header_bytes_are_big_endian() {
    let header = VideoPacketHeader {
        session_id: 0x01020304,
        frame_index: 0x05060708,
        chunk_index: 0x090a,
        chunk_count: 0x0b0c,
        timestamp_micros: 0x0d0e0f1011121314,
    };
    let bytes = header.to_bytes();
    let expected: Vec<u8> = (1u8..=20).collect();
    assert_eq!(bytes.to_vec(), expected);
}

#[test]
fn from_bytes_rejects_short_buffers() {
    assert!(VideoPacketHeader::from_bytes(&[0u8; 19]).is_none());
    assert!(VideoPacketHeader::from_bytes(&[]).is_none());
    let mut long = vec![0u8; 25];
    long[3] = 7;
    let h = VideoPacketHeader::from_bytes(&long).unwrap();
    assert_eq!(h.session_id, 7);
}

#[test]
fn single_packet_with_header_and_payload() {
    let header = VideoPacketHeader {
        session_id: 42,
        frame_index: 7,
        chunk_index: 0,
        chunk_count: 1,
        timestamp_micros: 123,
    };
    let payload: Vec<u8> = vec![1, 2, 3, 4, 5];
    let packets = frame_packets(&header, &payload);
    assert_eq!(packets.len(), 1);
    let packet = &packets[0];
    assert_eq!(packet.len(), HEADER_SIZE + payload.len());
    let decoded = VideoPacketHeader::from_bytes(&packet[..HEADER_SIZE]).unwrap();
    assert_eq!(decoded.session_id, 42);
    assert_eq!(decoded.frame_index, 7);
    assert_eq!(decoded.chunk_index, 0);
    assert_eq!(decoded.chunk_count, 1);
    assert_eq!(decoded.timestamp_micros, 123);
    assert_eq!(&packet[HEADER_SIZE..], &payload[..]);
}

#[test]
fn empty_payload_still_sends_one_packet() {
    let header = VideoPacketHeader {
        session_id: 1,
        frame_index: 0,
        chunk_index: 0,
        chunk_count: 0,
        timestamp_micros: 0,
    };
    let packets = frame_packets(&header, &[]);
    assert_eq!(packets.len(), 1);
    assert_eq!(packets[0].len(), HEADER_SIZE);
    let decoded = VideoPacketHeader::from_bytes(&packets[0]).unwrap();
    assert_eq!(decoded.chunk_count, 1);
}

#[test]
fn large_payload_is_split_and_reassembles() {
    let header = VideoPacketHeader {
        session_id: 1,
        frame_index: 9,
        chunk_index: 0,
        chunk_count: 0,
        timestamp_micros: 77,
    };
    let payload: Vec<u8> = (0..2500u32).map(|i| (i % 251) as u8).collect();
    let packets = frame_packets(&header, &payload);
    assert_eq!(packets.len(), 3);
    assert_eq!(packets[0].len(), HEADER_SIZE + 1200);
    assert_eq!(packets[1].len(), HEADER_SIZE + 1200);
    assert_eq!(packets[2].len(), HEADER_SIZE + 100);
    let mut rebuilt = Vec::new();
    for (i, p) in packets.iter().enumerate() {
        let h = VideoPacketHeader::from_bytes(p).unwrap();
        assert_eq!(h.chunk_index as usize, i);
        assert_eq!(h.chunk_count, 3);
        assert_eq!(h.frame_index, 9);
        rebuilt.extend_from_slice(&p[HEADER_SIZE..]);
    }
    assert_eq!(rebuilt, payload);
}

#[test]
fn timestamp_keeps_low_64_bits() {
    assert_eq!(timestamp_from_micros(None), 0);
    assert_eq!(timestamp_from_micros(Some(5)), 5);
    assert_eq!(timestamp_from_micros(Some((1u128 << 64) + 9)), 9);
    assert!(VideoPacketHeader::now_timestamp_micros() > 0);
}
