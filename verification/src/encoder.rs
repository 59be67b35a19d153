use vstd::prelude::*;

use crate::capture::Frame;

verus! {

/// A frame could not be encoded.
#[derive(Debug)]
pub struct EncodeError;

/// JPEG encoder for frames of one fixed size.
pub struct Encoder {
    width: i32,
    height: i32,
    quality: u8,
    fps: u32,
    bitrate: u32,
}

/// JPEG quality the encoder uses.
pub const JPEG_QUALITY: u8 = 80;

/// The RGB byte at position `i` of the buffer converted from `bgra`: pixel `i / 3`, channel
/// `i % 3` (red, green, blue), taken from the pixel's four BGRA bytes when all four are
/// present and 0 otherwise.
pub open spec fn rgb_byte(bgra: Seq<u8>, i: int) -> u8 {
    let p = i / 3;
    let c = i % 3;
    if 4 * p + 3 < bgra.len() {
        bgra[4 * p + 2 - c]
    } else {
        0
    }
}

/// The `pixels * 3` RGB bytes converted from a BGRA buffer.
pub open spec fn bgra_to_rgb(bgra: Seq<u8>, pixels: nat) -> Seq<u8> {
    Seq::new(pixels * 3, |i: int| rgb_byte(bgra, i))
}

/// Every whole BGRA pixel `p` of the input (`4 * p + 4 <= bgra.len()`, `p < pixels`) gives
/// the RGB pixel `p` of the output: red from byte `4p + 2`, green from `4p + 1`, blue from
/// `4p`; the output pixels past the input's whole pixels are black; the output has three
/// bytes per pixel.
pub proof fn lemma_bgra_to_rgb_pixels(bgra: Seq<u8>, pixels: nat, p: int)
    requires
        0 <= p < pixels,
    ensures
        bgra_to_rgb(bgra, pixels).len() == 3 * pixels,
        4 * p + 4 <= bgra.len() ==> {
            &&& bgra_to_rgb(bgra, pixels)[3 * p] == bgra[4 * p + 2]
            &&& bgra_to_rgb(bgra, pixels)[3 * p + 1] == bgra[4 * p + 1]
            &&& bgra_to_rgb(bgra, pixels)[3 * p + 2] == bgra[4 * p]
        },
        4 * p + 4 > bgra.len() ==> {
            &&& bgra_to_rgb(bgra, pixels)[3 * p] == 0
            &&& bgra_to_rgb(bgra, pixels)[3 * p + 1] == 0
            &&& bgra_to_rgb(bgra, pixels)[3 * p + 2] == 0
        },
{
    lemma_pixel_index(p, 0);
    lemma_pixel_index(p, 1);
    lemma_pixel_index(p, 2);
    assert(3 * p + 2 < pixels * 3) by (nonlinear_arith)
        requires
            0 <= p < pixels,
    ;
}

/// The JPEG bytes that `image`'s encoder writes for an RGB image of the given size and quality.
pub uninterp spec fn jpeg_rgb8(rgb: Seq<u8>, width: u32, height: u32, quality: u8) -> Seq<u8>;

#[verifier::external_type_specification]
#[verifier::external_body]
pub struct ExImageError(image::ImageError);

/// Calls `image::codecs::jpeg::JpegEncoder::new_with_quality` on a fresh byte buffer and then
/// its `encode` with `ExtendedColorType::Rgb8`, handing back the buffer (the encoder writes
/// into a buffer it borrows, so the two calls form one use of it). Per the crate's source,
/// encoding fails exactly when a side is 0 or above 65535 (writes to a `Vec` do not fail),
/// the output is determined by the arguments alone, and `encode` panics unless the buffer
/// holds `width * height * 3` bytes, which `requires` rules out.
#[verifier::external_body]
fn jpeg_encode_rgb8(rgb: &[u8], width: u32, height: u32, quality: u8) -> (r: Result<
    Vec<u8>,
    image::ImageError,
>)
    requires
        rgb@.len() == width * height * 3,
    ensures
        r is Ok <==> (1 <= width <= 65535 && 1 <= height <= 65535),
        r matches Ok(v) ==> v@ == jpeg_rgb8(rgb@, width, height, quality),
{
    let mut out: Vec<u8> = Vec::new();
    let mut encoder = image::codecs::jpeg::JpegEncoder::new_with_quality(&mut out, quality);
    match encoder.encode(rgb, width, height, image::ExtendedColorType::Rgb8) {
        Ok(()) => Ok(out),
        Err(e) => Err(e),
    }
}

proof fn lemma_pixel_index(k: int, c: int)
    requires
        0 <= k,
        0 <= c < 3,
    ensures
        (3 * k + c) / 3 == k,
        (3 * k + c) % 3 == c,
{
    assert((3 * k + c) / 3 == k) by (nonlinear_arith)
        requires
            0 <= k,
            0 <= c < 3,
    ;
    assert((3 * k + c) % 3 == c) by (nonlinear_arith)
        requires
            0 <= k,
            0 <= c < 3,
    ;
}

/// Converts BGRA pixels to `pixels * 3` RGB bytes: every whole BGRA pixel in the input
/// gives one RGB pixel, the rest stays 0.
pub fn bgra_to_rgb_bytes(bgra: &[u8], pixels: usize) -> (rgb: Vec<u8>)
    requires
        pixels * 3 <= usize::MAX,
        bgra@.len() / 4 <= pixels,
    ensures
        rgb@ == bgra_to_rgb(bgra@, pixels as nat),
        rgb@.len() == 3 * pixels,
        forall|p: int|
            0 <= p < pixels && 4 * p + 4 <= bgra@.len() ==> rgb@[3 * p] == bgra@[4 * p + 2] && rgb@[3
                * p + 1] == bgra@[4 * p + 1] && #[trigger] rgb@[3 * p + 2] == bgra@[4 * p],
{
    let total = pixels * 3;
    let mut rgb = vec![0u8; total];
    let mut src: usize = 0;
    let mut dst: usize = 0;
    while src + 3 < bgra.len()
        invariant
            rgb@.len() == total,
            total == pixels * 3,
            bgra@.len() / 4 <= pixels,
            src == 4 * (dst / 3),
            dst % 3 == 0,
            src <= bgra@.len(),
            forall|i: int| 0 <= i < dst ==> rgb@[i] == #[trigger] rgb_byte(bgra@, i),
            forall|i: int| dst <= i < total ==> rgb@[i] == 0,
        decreases bgra@.len() - src,
    {
        let ghost k: int = (dst / 3) as int;
        proof {
            assert(4 * (k + 1) <= bgra@.len());
            assert(k < pixels) by (nonlinear_arith)
                requires
                    4 * (k + 1) <= bgra@.len(),
                    bgra@.len() / 4 <= pixels,
                    k >= 0,
            ;
            lemma_pixel_index(k, 0);
            lemma_pixel_index(k, 1);
            lemma_pixel_index(k, 2);
        }
        rgb.set(dst, bgra[src + 2]);
        rgb.set(dst + 1, bgra[src + 1]);
        rgb.set(dst + 2, bgra[src]);
        src = src + 4;
        dst = dst + 3;
    }
    proof {
        assert forall|i: int| dst <= i < total implies rgb@[i] == #[trigger] rgb_byte(bgra@, i) by {
            assert(i / 3 >= dst / 3) by (nonlinear_arith)
                requires
                    i >= dst,
                    dst >= 0,
            ;
            assert(4 * (i / 3) + 3 >= bgra@.len());
        }
    }
    assert(rgb@ =~= bgra_to_rgb(bgra@, pixels as nat));
    assert forall|p: int|
        0 <= p < pixels && 4 * p + 4 <= bgra@.len() implies rgb@[3 * p] == bgra@[4 * p + 2] && rgb@[3
            * p + 1] == bgra@[4 * p + 1] && #[trigger] rgb@[3 * p + 2] == bgra@[4 * p] by {
        lemma_bgra_to_rgb_pixels(bgra@, pixels as nat, p);
    }
    rgb
}

impl Encoder {
    #[verifier::type_invariant]
    spec fn well_formed(self) -> bool {
        &&& self.width > 0
        &&& self.height > 0
        &&& self.fps > 0
        &&& self.bitrate > 0
        &&& self.quality == JPEG_QUALITY
    }

    /// Width of the frames this encoder takes.
    pub closed spec fn frame_width(self) -> i32 {
        self.width
    }

    /// Height of the frames this encoder takes.
    pub closed spec fn frame_height(self) -> i32 {
        self.height
    }

    /// Frame rate the encoder was made for.
    pub closed spec fn frame_rate(self) -> u32 {
        self.fps
    }

    /// Bit rate the encoder was made for.
    pub closed spec fn bit_rate(self) -> u32 {
        self.bitrate
    }

    /// An encoder for `width` x `height` frames; refused when a size, the frame rate or the
    /// bit rate is not positive.
    pub fn new(width: i32, height: i32, fps: u32, bitrate: u32) -> (r: Result<Self, EncodeError>)
        ensures
            r is Ok <==> (width > 0 && height > 0 && fps > 0 && bitrate > 0),
            r matches Ok(e) ==> (e.frame_width() == width && e.frame_height() == height
                && e.frame_rate() == fps && e.bit_rate() == bitrate),
    {
        if width <= 0 || height <= 0 || fps == 0 || bitrate == 0 {
            return Err(EncodeError);
        }
        Ok(Encoder { width, height, quality: JPEG_QUALITY, fps, bitrate })
    }

    /// Encodes a frame as JPEG at quality `JPEG_QUALITY`, after converting its pixels to RGB.
    /// Refused when the frame's size differs from the encoder's, or when a side exceeds what
    /// JPEG allows (65535).
    pub fn encode(&mut self, frame: &Frame) -> (r: Result<Vec<u8>, EncodeError>)
        requires
            (frame.width == old(self).frame_width() && frame.height == old(self).frame_height())
                ==> (frame.width * frame.height * 3 <= i32::MAX && frame.bgra@.len() / 4
                <= frame.width * frame.height),
        ensures
            *final(self) == *old(self),
            r is Ok <==> (frame.width == old(self).frame_width() && frame.height == old(
                self,
            ).frame_height() && frame.width <= 65535 && frame.height <= 65535),
            r matches Ok(v) ==> v@ == jpeg_rgb8(
                bgra_to_rgb(frame.bgra@, (frame.width * frame.height) as nat),
                frame.width as u32,
                frame.height as u32,
                JPEG_QUALITY,
            ),
    {
        proof {
            use_type_invariant(&*self);
        }
        if frame.width != self.width || frame.height != self.height {
            return Err(EncodeError);
        }
        let pixels = (frame.width * frame.height) as usize;
        proof {
            assert(frame.width * frame.height > 0) by (nonlinear_arith)
                requires
                    frame.width > 0,
                    frame.height > 0,
            ;
        }
        let rgb = bgra_to_rgb_bytes(&frame.bgra, pixels);
        match jpeg_encode_rgb8(&rgb, self.width as u32, self.height as u32, self.quality) {
            Ok(encoded) => Ok(encoded),
            Err(_) => Err(EncodeError),
        }
    }
}

} // verus!
