use vstd::prelude::*;

use crate::capture::Frame;
use crate::encoder::{bgra_to_rgb, jpeg_rgb8, Encoder, JPEG_QUALITY};
use crate::net::VideoPacketHeader;

verus! {

/// Session id of the video stream.
pub const STREAM_SESSION_ID: u32 = 1;

/// Bit rate the stream's encoder is made with.
pub const STREAM_BITRATE: u32 = 8_000_000;

/// The frame rate the stream runs at for a configured rate: the rate, but at least 1.
pub fn stream_fps(configured: u32) -> (r: u32)
    ensures
        r == (if configured == 0 {
            1
        } else {
            configured
        }),
{
    if configured == 0 {
        1
    } else {
        configured
    }
}

/// Milliseconds to wait between two frames at `fps` frames per second: `1000 / fps`, at least 1
/// (a rate of 0 counts as 1).
pub fn frame_interval_ms(fps: u32) -> (r: u64)
    ensures
        r == (if fps == 0 {
            1000
        } else if 1000int / (fps as int) == 0 {
            1
        } else {
            1000int / (fps as int)
        }),
{
    if fps == 0 {
        return 1000;
    }
    let interval = 1000u64 / fps as u64;
    assert(interval == 1000int / (fps as int));
    if interval == 0 {
        1
    } else {
        interval
    }
}

/// The header a frame is sent with: the stream's session, the frame's index and time stamp;
/// chunk fields are filled in per packet.
pub fn stream_header(frame_index: u32, timestamp_micros: u64) -> (r: VideoPacketHeader)
    ensures
        r == (VideoPacketHeader {
            session_id: STREAM_SESSION_ID,
            frame_index,
            chunk_index: 0,
            chunk_count: 0,
            timestamp_micros,
        }),
{
    VideoPacketHeader {
        session_id: STREAM_SESSION_ID,
        frame_index,
        chunk_index: 0,
        chunk_count: 0,
        timestamp_micros,
    }
}

/// The next frame index: advanced (wrapping) after a frame was sent, kept otherwise.
pub fn next_frame_index(frame_index: u32, sent: bool) -> (r: u32)
    ensures
        r == (if sent {
            ((frame_index + 1) % 0x1_0000_0000) as u32
        } else {
            frame_index
        }),
{
    if sent {
        frame_index.wrapping_add(1)
    } else {
        frame_index
    }
}

/// One step of the streaming loop for a captured frame: an empty frame is skipped; the
/// encoder is made from the first frame's size when there is none yet; the frame is then
/// encoded. Gives the encoded frame, or `None` when nothing is to be sent.
pub fn encode_for_stream(encoder: &mut Option<Encoder>, frame: &Frame, fps: u32) -> (r: Option<
    Vec<u8>,
>)
    requires
        frame.width > 0 && frame.height > 0 ==> (frame.width * frame.height * 3 <= i32::MAX
            && frame.bgra@.len() / 4 <= frame.width * frame.height),
    ensures
        !(frame.width > 0 && frame.height > 0) ==> r is None && *final(encoder) == *old(encoder),
        frame.width > 0 && frame.height > 0 ==> {
            &&& *old(encoder) is Some ==> *final(encoder) == *old(encoder)
            &&& *old(encoder) is None && fps > 0 ==> (*final(encoder) is Some
                && final(encoder)->0.frame_width() == frame.width
                && final(encoder)->0.frame_height() == frame.height && final(encoder)->0.frame_rate() == fps
                && final(encoder)->0.bit_rate() == STREAM_BITRATE)
            &&& *old(encoder) is None && fps == 0 ==> *final(encoder) is None
            &&& r is Some <==> (*final(encoder) matches Some(e) && e.frame_width() == frame.width
                && e.frame_height() == frame.height && frame.width <= 65535 && frame.height <= 65535)
            &&& r matches Some(v) ==> v@ == jpeg_rgb8(
                bgra_to_rgb(frame.bgra@, (frame.width * frame.height) as nat),
                frame.width as u32,
                frame.height as u32,
                JPEG_QUALITY,
            )
        },
{
    if frame.width <= 0 || frame.height <= 0 {
        return None;
    }
    if encoder.is_none() {
        if let Ok(enc) = Encoder::new(frame.width, frame.height, fps, STREAM_BITRATE) {
            *encoder = Some(enc);
        }
    }
    match encoder {
        Some(enc) => match enc.encode(frame) {
            Ok(payload) => Some(payload),
            Err(_) => None,
        },
        None => None,
    }
}

} // verus!
