use vstd::prelude::*;

verus! {

/// Size in bytes of an encoded video packet header.
pub const HEADER_SIZE: usize = 20;

/// Largest payload slice carried by one packet.
pub const MAX_PAYLOAD_PER_PACKET: usize = 1200;

/// Largest number of packets one frame is split into (chunk counts are `u16`).
pub const MAX_CHUNKS: usize = 65535;

/// Header in front of every video packet, sent big-endian.
#[derive(Debug, Clone, Copy, PartialEq, Eq, Structural)]
pub struct VideoPacketHeader {
    pub session_id: u32,
    pub frame_index: u32,
    pub chunk_index: u16,
    pub chunk_count: u16,
    pub timestamp_micros: u64,
}

/// Big-endian bytes of a `u16`.
pub open spec fn be_u16(x: u16) -> Seq<u8> {
    seq![(x >> 8u16) as u8, x as u8]
}

/// Big-endian bytes of a `u32`.
pub open spec fn be_u32(x: u32) -> Seq<u8> {
    seq![(x >> 24u32) as u8, (x >> 16u32) as u8, (x >> 8u32) as u8, x as u8]
}

/// Big-endian bytes of a `u64`.
pub open spec fn be_u64(x: u64) -> Seq<u8> {
    seq![
        (x >> 56u64) as u8,
        (x >> 48u64) as u8,
        (x >> 40u64) as u8,
        (x >> 32u64) as u8,
        (x >> 24u64) as u8,
        (x >> 16u64) as u8,
        (x >> 8u64) as u8,
        x as u8,
    ]
}

/// The `u16` with big-endian bytes `a, b`.
pub open spec fn u16_from_be(a: u8, b: u8) -> u16 {
    ((a as u16) << 8u16) | (b as u16)
}

/// The `u32` with big-endian bytes `a, b, c, d`.
pub open spec fn u32_from_be(a: u8, b: u8, c: u8, d: u8) -> u32 {
    ((a as u32) << 24u32) | ((b as u32) << 16u32) | ((c as u32) << 8u32) | (d as u32)
}

/// The `u64` with big-endian bytes `b0` to `b7`.
pub open spec fn u64_from_be(b0: u8, b1: u8, b2: u8, b3: u8, b4: u8, b5: u8, b6: u8, b7: u8) -> u64 {
    ((b0 as u64) << 56u64) | ((b1 as u64) << 48u64) | ((b2 as u64) << 40u64) | ((b3 as u64)
        << 32u64) | ((b4 as u64) << 24u64) | ((b5 as u64) << 16u64) | ((b6 as u64) << 8u64) | (
    b7 as u64)
}

/// The `u16` whose big-endian bytes are `b[at..at + 2]`.
pub open spec fn read_be_u16(b: Seq<u8>, at: int) -> u16 {
    u16_from_be(b[at], b[at + 1])
}

/// The `u32` whose big-endian bytes are `b[at..at + 4]`.
pub open spec fn read_be_u32(b: Seq<u8>, at: int) -> u32 {
    u32_from_be(b[at], b[at + 1], b[at + 2], b[at + 3])
}

/// The `u64` whose big-endian bytes are `b[at..at + 8]`.
pub open spec fn read_be_u64(b: Seq<u8>, at: int) -> u64 {
    u64_from_be(b[at], b[at + 1], b[at + 2], b[at + 3], b[at + 4], b[at + 5], b[at + 6], b[at + 7])
}

/// The wire form of a header: its five fields big-endian, in declaration order.
pub open spec fn header_bytes(h: VideoPacketHeader) -> Seq<u8> {
    be_u32(h.session_id) + be_u32(h.frame_index) + be_u16(h.chunk_index) + be_u16(h.chunk_count)
        + be_u64(h.timestamp_micros)
}

/// The header that the first `HEADER_SIZE` bytes of `b` encode.
pub open spec fn header_at_start(b: Seq<u8>) -> VideoPacketHeader {
    VideoPacketHeader {
        session_id: read_be_u32(b, 0),
        frame_index: read_be_u32(b, 4),
        chunk_index: read_be_u16(b, 8),
        chunk_count: read_be_u16(b, 10),
        timestamp_micros: read_be_u64(b, 12),
    }
}

proof fn lemma_u16_roundtrip(x: u16)
    ensures
        u16_from_be((x >> 8u16) as u8, x as u8) == x,
{
    assert(u16_from_be((x >> 8u16) as u8, x as u8) == x) by (bit_vector);
}

proof fn lemma_u32_roundtrip(x: u32)
    ensures
        u32_from_be((x >> 24u32) as u8, (x >> 16u32) as u8, (x >> 8u32) as u8, x as u8) == x,
{
    assert(u32_from_be((x >> 24u32) as u8, (x >> 16u32) as u8, (x >> 8u32) as u8, x as u8) == x)
        by (bit_vector);
}

proof fn lemma_u64_roundtrip(x: u64)
    ensures
        u64_from_be(
            (x >> 56u64) as u8,
            (x >> 48u64) as u8,
            (x >> 40u64) as u8,
            (x >> 32u64) as u8,
            (x >> 24u64) as u8,
            (x >> 16u64) as u8,
            (x >> 8u64) as u8,
            x as u8,
        ) == x,
{
    assert(u64_from_be(
        (x >> 56u64) as u8,
        (x >> 48u64) as u8,
        (x >> 40u64) as u8,
        (x >> 32u64) as u8,
        (x >> 24u64) as u8,
        (x >> 16u64) as u8,
        (x >> 8u64) as u8,
        x as u8,
    ) == x) by (bit_vector);
}

proof fn lemma_u16_bytes(a: u8, b: u8)
    ensures
        be_u16(u16_from_be(a, b)) == seq![a, b],
{
    let x = u16_from_be(a, b);
    assert((x >> 8u16) as u8 == a) by (bit_vector)
        requires
            x == u16_from_be(a, b),
    ;
    assert(x as u8 == b) by (bit_vector)
        requires
            x == u16_from_be(a, b),
    ;
    assert(be_u16(x) =~= seq![a, b]);
}

proof fn lemma_u32_bytes(a: u8, b: u8, c: u8, d: u8)
    ensures
        be_u32(u32_from_be(a, b, c, d)) == seq![a, b, c, d],
{
    let x = u32_from_be(a, b, c, d);
    assert((x >> 24u32) as u8 == a && (x >> 16u32) as u8 == b && (x >> 8u32) as u8 == c && x as u8
        == d) by (bit_vector)
        requires
            x == u32_from_be(a, b, c, d),
    ;
    assert(be_u32(x) =~= seq![a, b, c, d]);
}

proof fn lemma_u64_bytes(b0: u8, b1: u8, b2: u8, b3: u8, b4: u8, b5: u8, b6: u8, b7: u8)
    ensures
        be_u64(u64_from_be(b0, b1, b2, b3, b4, b5, b6, b7)) == seq![b0, b1, b2, b3, b4, b5, b6, b7],
{
    let x = u64_from_be(b0, b1, b2, b3, b4, b5, b6, b7);
    assert((x >> 56u64) as u8 == b0 && (x >> 48u64) as u8 == b1 && (x >> 40u64) as u8 == b2 && (x
        >> 32u64) as u8 == b3) by (bit_vector)
        requires
            x == u64_from_be(b0, b1, b2, b3, b4, b5, b6, b7),
    ;
    assert((x >> 24u64) as u8 == b4 && (x >> 16u64) as u8 == b5 && (x >> 8u64) as u8 == b6 && x as u8
        == b7) by (bit_vector)
        requires
            x == u64_from_be(b0, b1, b2, b3, b4, b5, b6, b7),
    ;
    assert(be_u64(x) =~= seq![b0, b1, b2, b3, b4, b5, b6, b7]);
}

/// Decoding the wire form of a header gives the header back.
pub proof fn lemma_header_decode_encode(h: VideoPacketHeader)
    ensures
        header_bytes(h).len() == HEADER_SIZE,
        header_at_start(header_bytes(h)) == h,
{
    lemma_u32_roundtrip(h.session_id);
    lemma_u32_roundtrip(h.frame_index);
    lemma_u16_roundtrip(h.chunk_index);
    lemma_u16_roundtrip(h.chunk_count);
    lemma_u64_roundtrip(h.timestamp_micros);
}

/// Encoding the header read from the first `HEADER_SIZE` bytes of a buffer gives those bytes back.
pub proof fn lemma_header_encode_decode(b: Seq<u8>)
    requires
        b.len() >= HEADER_SIZE,
    ensures
        header_bytes(header_at_start(b)) == b.subrange(0, HEADER_SIZE as int),
{
    lemma_u32_bytes(b[0], b[1], b[2], b[3]);
    lemma_u32_bytes(b[4], b[5], b[6], b[7]);
    lemma_u16_bytes(b[8], b[9]);
    lemma_u16_bytes(b[10], b[11]);
    lemma_u64_bytes(b[12], b[13], b[14], b[15], b[16], b[17], b[18], b[19]);
    assert(header_bytes(header_at_start(b)) =~= b.subrange(0, HEADER_SIZE as int));
}

#[verifier::external_type_specification]
#[verifier::external_body]
pub struct ExSystemTime(std::time::SystemTime);

/// Calls `std::time::SystemTime::now`. Nothing is stated: the result is the current time.
#[verifier::external_body]
fn system_time_now() -> std::time::SystemTime {
    std::time::SystemTime::now()
}

/// Calls `SystemTime::duration_since(UNIX_EPOCH)`: the time since the Unix epoch, or `None`
/// when `t` lies before it. Nothing more is stated: it depends on the clock.
#[verifier::external_body]
fn since_unix_epoch(t: std::time::SystemTime) -> Option<std::time::Duration> {
    t.duration_since(std::time::UNIX_EPOCH).ok()
}

/// Calls `Duration::as_micros`: the whole microseconds of `d`. Nothing is stated of the value,
/// as `Duration` is opaque here.
#[verifier::external_body]
fn duration_micros(d: std::time::Duration) -> u128 {
    d.as_micros()
}

/// The time stamp sent for a time `micros` microseconds after the Unix epoch: its low 64 bits;
/// 0 when the clock stood before the epoch.
pub fn timestamp_from_micros(micros: Option<u128>) -> (r: u64)
    ensures
        r == (match micros {
            Some(m) => m % 0x1_0000_0000_0000_0000,
            None => 0,
        }),
{
    match micros {
        Some(m) => {
            let r = m as u64;
            assert(r == m % 0x1_0000_0000_0000_0000) by (bit_vector)
                requires
                    r == m as u64,
            ;
            r
        },
        None => 0,
    }
}

impl VideoPacketHeader {
    /// Microseconds since the Unix epoch, now (0 when the clock stands before the epoch).
    pub fn now_timestamp_micros() -> u64 {
        let micros = match since_unix_epoch(system_time_now()) {
            Some(d) => Some(duration_micros(d)),
            None => None,
        };
        timestamp_from_micros(micros)
    }

    /// The header's wire form.
    pub fn to_bytes(&self) -> (r: [u8; 20])
        ensures
            r@ == header_bytes(*self),
    {
        let s = self.session_id;
        let f = self.frame_index;
        let ci = self.chunk_index;
        let cc = self.chunk_count;
        let t = self.timestamp_micros;
        let r = [
            (s >> 24u32) as u8,
            (s >> 16u32) as u8,
            (s >> 8u32) as u8,
            s as u8,
            (f >> 24u32) as u8,
            (f >> 16u32) as u8,
            (f >> 8u32) as u8,
            f as u8,
            (ci >> 8u16) as u8,
            ci as u8,
            (cc >> 8u16) as u8,
            cc as u8,
            (t >> 56u64) as u8,
            (t >> 48u64) as u8,
            (t >> 40u64) as u8,
            (t >> 32u64) as u8,
            (t >> 24u64) as u8,
            (t >> 16u64) as u8,
            (t >> 8u64) as u8,
            t as u8,
        ];
        assert(r@ =~= header_bytes(*self));
        r
    }

    /// Reads a header from the start of `buf`; `None` when `buf` is shorter than a header.
    pub fn from_bytes(buf: &[u8]) -> (r: Option<Self>)
        ensures
            buf@.len() < HEADER_SIZE ==> r is None,
            buf@.len() >= HEADER_SIZE ==> r == Some(header_at_start(buf@)),
    {
        if buf.len() < HEADER_SIZE {
            return None;
        }
        let session_id = ((buf[0] as u32) << 24u32) | ((buf[1] as u32) << 16u32) | ((
        buf[2] as u32) << 8u32) | (buf[3] as u32);
        let frame_index = ((buf[4] as u32) << 24u32) | ((buf[5] as u32) << 16u32) | ((
        buf[6] as u32) << 8u32) | (buf[7] as u32);
        let chunk_index = ((buf[8] as u16) << 8u16) | (buf[9] as u16);
        let chunk_count = ((buf[10] as u16) << 8u16) | (buf[11] as u16);
        let timestamp_micros = ((buf[12] as u64) << 56u64) | ((buf[13] as u64) << 48u64) | ((
        buf[14] as u64) << 40u64) | ((buf[15] as u64) << 32u64) | ((buf[16] as u64) << 24u64) | ((
        buf[17] as u64) << 16u64) | ((buf[18] as u64) << 8u64) | (buf[19] as u64);
        Some(VideoPacketHeader { session_id, frame_index, chunk_index, chunk_count, timestamp_micros })
    }
}

/// How many packets a payload of `len` bytes is sent in: one for an empty payload,
/// otherwise one per started `MAX_PAYLOAD_PER_PACKET` bytes, but never more than `MAX_CHUNKS`.
pub open spec fn chunk_total(len: nat) -> nat {
    if len == 0 {
        1
    } else {
        let needed = (len + MAX_PAYLOAD_PER_PACKET - 1) as int / (MAX_PAYLOAD_PER_PACKET as int);
        if needed > MAX_CHUNKS {
            MAX_CHUNKS as nat
        } else {
            needed as nat
        }
    }
}

/// The slice of `payload` carried by packet `i`.
pub open spec fn chunk_part(payload: Seq<u8>, i: int) -> Seq<u8> {
    let start = i * MAX_PAYLOAD_PER_PACKET;
    let stop = if (i + 1) * MAX_PAYLOAD_PER_PACKET < payload.len() {
        (i + 1) * MAX_PAYLOAD_PER_PACKET
    } else {
        payload.len() as int
    };
    if start < stop {
        payload.subrange(start, stop)
    } else {
        Seq::empty()
    }
}

/// The header of packet `i` of a frame with `total` packets.
pub open spec fn chunk_header(header: VideoPacketHeader, i: int, total: nat) -> VideoPacketHeader {
    VideoPacketHeader {
        session_id: header.session_id,
        frame_index: header.frame_index,
        chunk_index: i as u16,
        chunk_count: total as u16,
        timestamp_micros: header.timestamp_micros,
    }
}

/// Packet `i` of a frame: its chunk header followed by its slice of the payload.
pub open spec fn frame_packet(header: VideoPacketHeader, payload: Seq<u8>, i: int) -> Seq<u8> {
    header_bytes(chunk_header(header, i, chunk_total(payload.len())))
        + chunk_part(payload, i)
}

/// The payload slices of the first `n` packets, concatenated.
pub open spec fn joined_parts(payload: Seq<u8>, n: nat) -> Seq<u8>
    decreases n,
{
    if n == 0 {
        Seq::empty()
    } else {
        joined_parts(payload, (n - 1) as nat) + chunk_part(payload, n - 1)
    }
}

/// What a receiver rebuilds from packets: the bytes after each header, concatenated.
pub open spec fn reassemble(packets: Seq<Seq<u8>>) -> Seq<u8>
    decreases packets.len(),
{
    if packets.len() == 0 {
        Seq::empty()
    } else {
        reassemble(packets.drop_last()) + packets.last().skip(HEADER_SIZE as int)
    }
}

proof fn lemma_joined_parts_prefix(payload: Seq<u8>, n: nat)
    ensures
        joined_parts(payload, n) == payload.subrange(
            0,
            if n * MAX_PAYLOAD_PER_PACKET < payload.len() {
                n * MAX_PAYLOAD_PER_PACKET
            } else {
                payload.len() as int
            },
        ),
    decreases n,
{
    if n == 0 {
        assert(joined_parts(payload, n) =~= payload.subrange(0, 0));
    } else {
        lemma_joined_parts_prefix(payload, (n - 1) as nat);
        let prev = joined_parts(payload, (n - 1) as nat);
        let part = chunk_part(payload, n - 1);
        assert(joined_parts(payload, n) =~= payload.subrange(
            0,
            if n * MAX_PAYLOAD_PER_PACKET < payload.len() {
                n * MAX_PAYLOAD_PER_PACKET
            } else {
                payload.len() as int
            },
        ));
    }
}

proof fn lemma_reassemble_packets(header: VideoPacketHeader, payload: Seq<u8>, n: nat)
    requires
        n <= chunk_total(payload.len()),
    ensures
        reassemble(Seq::new(n, |i: int| frame_packet(header, payload, i))) == joined_parts(
            payload,
            n,
        ),
    decreases n,
{
    let packets = Seq::new(n, |i: int| frame_packet(header, payload, i));
    if n > 0 {
        let prev = Seq::new((n - 1) as nat, |i: int| frame_packet(header, payload, i));
        assert(packets.drop_last() =~= prev);
        lemma_reassemble_packets(header, payload, (n - 1) as nat);
        let h = chunk_header(header, n - 1, chunk_total(payload.len()));
        lemma_header_decode_encode(h);
        assert(packets.last().skip(HEADER_SIZE as int) =~= chunk_part(payload, n - 1));
    } else {
        assert(reassemble(packets) =~= joined_parts(payload, n));
    }
}

/// A frame's packets carry the whole payload, in order, when it fits in `MAX_CHUNKS` packets:
/// a receiver that concatenates what follows each packet's header gets the payload back,
/// and each packet's header says which chunk of how many it is.
pub proof fn lemma_frame_packets_reassemble(header: VideoPacketHeader, payload: Seq<u8>)
    requires
        payload.len() <= MAX_CHUNKS * MAX_PAYLOAD_PER_PACKET,
    ensures
        reassemble(Seq::new(chunk_total(payload.len()), |i: int| frame_packet(header, payload, i)))
            == payload,
        forall|i: int|
            0 <= i < chunk_total(payload.len()) ==> header_at_start(
                #[trigger] frame_packet(header, payload, i),
            ) == chunk_header(header, i, chunk_total(payload.len())),
{
    let total = chunk_total(payload.len());
    lemma_reassemble_packets(header, payload, total);
    lemma_joined_parts_prefix(payload, total);
    assert(total * MAX_PAYLOAD_PER_PACKET >= payload.len());
    assert(payload.subrange(0, payload.len() as int) =~= payload);
    assert forall|i: int| 0 <= i < total implies header_at_start(
        #[trigger] frame_packet(header, payload, i),
    ) == chunk_header(header, i, total) by {
        let h = chunk_header(header, i, total);
        lemma_header_decode_encode(h);
        let p = frame_packet(header, payload, i);
        assert(p.subrange(0, HEADER_SIZE as int) =~= header_bytes(h));
    }
}

/// Every packet of a frame starts with the frame's own session id, frame index and time
/// stamp, its own position `i` as chunk index and the frame's packet count as chunk count,
/// followed by the payload bytes `i * MAX_PAYLOAD_PER_PACKET ..` up to the next packet's
/// start or the payload's end.
pub proof fn lemma_frame_packet_fields(header: VideoPacketHeader, payload: Seq<u8>, i: int)
    requires
        0 <= i < chunk_total(payload.len()),
    ensures
        ({
            let h = header_at_start(frame_packet(header, payload, i));
            &&& h.session_id == header.session_id
            &&& h.frame_index == header.frame_index
            &&& h.timestamp_micros == header.timestamp_micros
            &&& h.chunk_index == i
            &&& h.chunk_count == chunk_total(payload.len())
        }),
        frame_packet(header, payload, i).skip(HEADER_SIZE as int) == chunk_part(payload, i),
        i * MAX_PAYLOAD_PER_PACKET < payload.len() ==> chunk_part(payload, i) == payload.subrange(
            i * MAX_PAYLOAD_PER_PACKET,
            if (i + 1) * MAX_PAYLOAD_PER_PACKET < payload.len() {
                (i + 1) * MAX_PAYLOAD_PER_PACKET
            } else {
                payload.len() as int
            },
        ),
{
    let total = chunk_total(payload.len());
    let h = chunk_header(header, i, total);
    lemma_header_decode_encode(h);
    let p = frame_packet(header, payload, i);
    assert(p.subrange(0, HEADER_SIZE as int) =~= header_bytes(h));
    assert(p.skip(HEADER_SIZE as int) =~= chunk_part(payload, i));
}

/// Splits one encoded frame into the packets that are sent for it, in sending order.
/// Packet `i` carries `header` with chunk index `i` and the frame's chunk count, followed by
/// bytes `i * MAX_PAYLOAD_PER_PACKET ..` of the payload; payload bytes beyond `MAX_CHUNKS`
/// packets are not sent.
pub fn frame_packets(header: &VideoPacketHeader, payload: &[u8]) -> (r: Vec<Vec<u8>>)
    ensures
        r@.len() == chunk_total(payload@.len()),
        forall|i: int| 0 <= i < r@.len() ==> (#[trigger] r@[i])@ == frame_packet(*header, payload@, i),
        forall|i: int|
            0 <= i < r@.len() ==> {
                let h = header_at_start(#[trigger] r@[i]@);
                &&& h.session_id == header.session_id
                &&& h.frame_index == header.frame_index
                &&& h.timestamp_micros == header.timestamp_micros
                &&& h.chunk_index == i
                &&& h.chunk_count == r@.len()
            },
{
    let len = payload.len();
    let total: usize = if len == 0 {
        1
    } else {
        let needed = len / MAX_PAYLOAD_PER_PACKET + if len % MAX_PAYLOAD_PER_PACKET != 0 {
            1usize
        } else {
            0usize
        };
        if needed > MAX_CHUNKS {
            MAX_CHUNKS
        } else {
            needed
        }
    };
    assert(total == chunk_total(len as nat)) by {
        if len > 0 {
            assert((len + MAX_PAYLOAD_PER_PACKET - 1) as int / (MAX_PAYLOAD_PER_PACKET as int) == len
                / MAX_PAYLOAD_PER_PACKET + if len % MAX_PAYLOAD_PER_PACKET != 0 {
                1int
            } else {
                0int
            }) by (nonlinear_arith)
                requires
                    len > 0,
                    MAX_PAYLOAD_PER_PACKET == 1200,
            ;
        }
    }
    let mut packets: Vec<Vec<u8>> = Vec::new();
    let mut chunk_index: usize = 0;
    while chunk_index < total
        invariant
            total == chunk_total(payload@.len()),
            total <= MAX_CHUNKS,
            len == payload@.len(),
            chunk_index <= total,
            packets@.len() == chunk_index,
            forall|i: int|
                0 <= i < chunk_index ==> (#[trigger] packets@[i])@ == frame_packet(
                    *header,
                    payload@,
                    i,
                ),
        decreases total - chunk_index,
    {
        let chunk_header = VideoPacketHeader {
            session_id: header.session_id,
            frame_index: header.frame_index,
            chunk_index: chunk_index as u16,
            chunk_count: total as u16,
            timestamp_micros: header.timestamp_micros,
        };
        let head = chunk_header.to_bytes();
        let start = chunk_index * MAX_PAYLOAD_PER_PACKET;
        let stop = if (chunk_index + 1) * MAX_PAYLOAD_PER_PACKET < len {
            (chunk_index + 1) * MAX_PAYLOAD_PER_PACKET
        } else {
            len
        };
        let mut buf: Vec<u8> = Vec::new();
        let mut k: usize = 0;
        while k < HEADER_SIZE
            invariant
                k <= HEADER_SIZE,
                head@.len() == HEADER_SIZE,
                buf@ == head@.subrange(0, k as int),
            decreases HEADER_SIZE - k,
        {
            buf.push(head[k]);
            k = k + 1;
            assert(buf@ =~= head@.subrange(0, k as int));
        }
        let mut j: usize = start;
        if start < stop {
            while j < stop
                invariant
                    start <= j <= stop,
                    stop <= payload@.len(),
                    buf@ == head@ + payload@.subrange(start as int, j as int),
                decreases stop - j,
            {
                buf.push(payload[j]);
                j = j + 1;
                assert(buf@ =~= head@ + payload@.subrange(start as int, j as int));
            }
        }
        assert(buf@ =~= frame_packet(*header, payload@, chunk_index as int));
        packets.push(buf);
        chunk_index = chunk_index + 1;
    }
    assert forall|i: int| 0 <= i < packets@.len() implies {
        let h = header_at_start(#[trigger] packets@[i]@);
        &&& h.session_id == header.session_id
        &&& h.frame_index == header.frame_index
        &&& h.timestamp_micros == header.timestamp_micros
        &&& h.chunk_index == i
        &&& h.chunk_count == packets@.len()
    } by {
        lemma_frame_packet_fields(*header, payload@, i);
    }
    packets
}

} // verus!
