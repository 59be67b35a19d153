use vstd::prelude::*;
use vstd::string::StringSliceAdditionalSpecFns;

verus! {

/// The QR code that `qrcode` makes for `data` (medium error correction, smallest version),
/// rendered by the crate as an 8-bit grey image with its default quiet zone and module size:
/// width, height and pixels row by row; `None` when the data cannot be encoded.
pub uninterp spec fn qr_render_luma(data: Seq<u8>) -> Option<(u32, u32, Seq<u8>)>;

/// Calls `qrcode::QrCode::new` on `data`, then renders the code with
/// `render::<image::Luma<u8>>().build()` and takes the image's width, height and raw pixels
/// (`into_raw`). As the crate's source shows, the image is square, holds `width * height`
/// pixels, each 0 (dark module) or 255 (light). On failure the crate's error is handed back
/// as its display text, of which nothing is stated.
#[verifier::external_body]
fn qr_render(data: &[u8]) -> (r: Result<(u32, u32, Vec<u8>), String>)
    ensures
        r is Ok <==> qr_render_luma(data@) is Some,
        r matches Ok((w, h, px)) ==> qr_render_luma(data@) == Some((w, h, px@)),
        r matches Ok((w, h, px)) ==> w == h && px@.len() == w * h && forall|i: int|
            0 <= i < px@.len() ==> px@[i] == 0 || px@[i] == 255,
{
    match qrcode::QrCode::new(data) {
        Ok(code) => {
            let image = code.render::<image::Luma<u8>>().build();
            let (width, height) = (image.width(), image.height());
            Ok((width, height, image.into_raw()))
        },
        Err(e) => Err(format!("{e}")),
    }
}

/// What the pairing QR code shows.
#[derive(Debug, Clone, PartialEq, Eq)]
pub enum QrPicture {
    /// No offer to show.
    Blank,
    /// The offer could not be encoded; the encoder's message.
    Failed(String),
    /// A `width` x `height` picture, row by row, `true` for dark pixels.
    Image { width: u32, height: u32, dark: Vec<bool> },
}

/// The QR picture for a pairing offer's text; `blank` tells whether the text is empty or
/// only whitespace, in which case nothing is shown.
pub fn qr_picture(payload: &str, blank: bool) -> (r: QrPicture)
    ensures
        blank ==> r == QrPicture::Blank,
        !blank ==> match qr_render_luma(payload.spec_bytes()) {
            None => r is Failed,
            Some((w, h, px)) => r matches QrPicture::Image { width, height, dark } && width == w
                && height == h && dark@ == px.map_values(|v: u8| v == 0),
        },
{
    if blank {
        return QrPicture::Blank;
    }
    match qr_render(payload.as_bytes()) {
        Err(message) => QrPicture::Failed(message),
        Ok((width, height, pixels)) => {
            let mut dark: Vec<bool> = Vec::new();
            let mut i: usize = 0;
            while i < pixels.len()
                invariant
                    i <= pixels@.len(),
                    dark@ == pixels@.subrange(0, i as int).map_values(|v: u8| v == 0),
                decreases pixels@.len() - i,
            {
                dark.push(pixels[i] == 0);
                i = i + 1;
                assert(dark@ =~= pixels@.subrange(0, i as int).map_values(|v: u8| v == 0));
            }
            assert(pixels@.subrange(0, i as int) =~= pixels@);
            QrPicture::Image { width, height, dark }
        },
    }
}

/// Whether `c` is whitespace in the sense of `char::is_whitespace`: the Unicode
/// `White_Space` property (tab to carriage return, space, next line, no-break space,
/// ogham space mark, the spaces U+2000 to U+200A, line and paragraph separators,
/// narrow no-break space, medium mathematical space and ideographic space).
pub open spec fn is_white_space(c: char) -> bool {
    let u = c as u32;
    ||| 0x9 <= u <= 0xD
    ||| u == 0x20
    ||| u == 0x85
    ||| u == 0xA0
    ||| u == 0x1680
    ||| 0x2000 <= u <= 0x200A
    ||| u == 0x2028
    ||| u == 0x2029
    ||| u == 0x202F
    ||| u == 0x205F
    ||| u == 0x3000
}

/// `s` without its leading and trailing whitespace.
pub open spec fn trimmed(s: Seq<char>) -> Seq<char>
    decreases s.len(),
{
    if s.len() > 0 && is_white_space(s[0]) {
        trimmed(s.drop_first())
    } else if s.len() > 0 && is_white_space(s.last()) {
        trimmed(s.drop_last())
    } else {
        s
    }
}

/// Whether a text is empty or consists of whitespace only.
pub open spec fn is_blank_text(s: Seq<char>) -> bool {
    forall|i: int| 0 <= i < s.len() ==> is_white_space(#[trigger] s[i])
}

/// A text trims to nothing exactly when it is blank.
pub proof fn lemma_trimmed_empty_iff_blank(s: Seq<char>)
    ensures
        (trimmed(s).len() == 0) == is_blank_text(s),
    decreases s.len(),
{
    if s.len() > 0 && is_white_space(s[0]) {
        lemma_trimmed_empty_iff_blank(s.drop_first());
        if is_blank_text(s.drop_first()) {
            assert forall|i: int| 0 <= i < s.len() implies is_white_space(#[trigger] s[i]) by {
                if i > 0 {
                    assert(s[i] == s.drop_first()[i - 1]);
                }
            }
        } else {
            let k = choose|k: int| 0 <= k < s.drop_first().len() && !is_white_space(#[trigger] s.drop_first()[k]);
            assert(s[k + 1] == s.drop_first()[k]);
        }
    } else if s.len() > 0 && is_white_space(s.last()) {
        lemma_trimmed_empty_iff_blank(s.drop_last());
        assert(!is_white_space(s[0]));
        assert(s.drop_last()[0] == s[0]);
    } else if s.len() > 0 {
        assert(!is_white_space(s[0]));
    }
}

/// Calls `str::trim`: as std documents it, the slice of `s` without leading and trailing
/// whitespace, whitespace being the Unicode `White_Space` characters.
#[verifier::external_body]
fn trim_text(s: &str) -> (r: &str)
    ensures
        r@ == trimmed(s@),
{
    s.trim()
}

/// The QR picture for a pairing offer's text: nothing when the text is empty or only
/// whitespace, otherwise the offer encoded as a QR code.
pub fn offer_qr_picture(payload: &str) -> (r: QrPicture)
    ensures
        is_blank_text(payload@) ==> r == QrPicture::Blank,
        !is_blank_text(payload@) ==> match qr_render_luma(payload.spec_bytes()) {
            None => r is Failed,
            Some((w, h, px)) => r matches QrPicture::Image { width, height, dark } && width == w
                && height == h && dark@ == px.map_values(|v: u8| v == 0),
        },
{
    let trimmed_text = trim_text(payload);
    proof {
        lemma_trimmed_empty_iff_blank(payload@);
    }
    let blank = trimmed_text.is_empty();
    qr_picture(payload, blank)
}

} // verus!
