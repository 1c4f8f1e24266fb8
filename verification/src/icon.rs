use vstd::prelude::*;
use vstd::slice::slice_subrange;

verus! {

/// `channel` scaled by `alpha / 255`, rounded to nearest.
pub open spec fn premultiply(channel: u8, alpha: u8) -> int {
    (channel * alpha + 127) / 255
}

/// Premultiplied BGRA pixels of the RGBA pixels in `rgba` (a trailing partial
/// pixel is dropped): for each pixel, blue, green and red scaled by alpha,
/// then alpha itself.
pub open spec fn premultiplied_bgra(rgba: Seq<u8>) -> Seq<u8> {
    Seq::new(
        (rgba.len() / 4 * 4) as nat,
        |i: int|
            {
                let p = i / 4 * 4;
                let a = rgba[p + 3];
                if i % 4 == 0 {
                    premultiply(rgba[p + 2], a) as u8
                } else if i % 4 == 1 {
                    premultiply(rgba[p + 1], a) as u8
                } else if i % 4 == 2 {
                    premultiply(rgba[p], a) as u8
                } else {
                    a
                }
            },
    )
}

/// A channel scaled by alpha, as the layered window expects.
fn premultiply_channel(channel: u8, alpha: u8) -> (res: u8)
    ensures
        res as int == premultiply(channel, alpha),
        res <= alpha,
{
    assert(channel * alpha <= 255 * 255) by (nonlinear_arith)
        requires channel <= 255, alpha <= 255;
    let product: u16 = channel as u16 * alpha as u16;
    assert((channel * alpha + 127) / 255 <= alpha) by (nonlinear_arith)
        requires channel <= 255, alpha <= 255;
    ((product + 127) / 255) as u8
}

/// Converts the RGBA pixels in `rgba` to premultiplied BGRA.
pub fn rgba_to_premultiplied_bgra(rgba: &[u8]) -> (res: Vec<u8>)
    ensures
        res@ == premultiplied_bgra(rgba@),
{
    let len = rgba.len();
    let n = len / 4;
    let mut out: Vec<u8> = Vec::new();
    let mut k: usize = 0;
    while k < n
        invariant
            len == rgba@.len(),
            n == len / 4,
            k <= n,
            out@.len() == 4 * k,
            forall|i: int| 0 <= i < 4 * k ==> out@[i] == premultiplied_bgra(rgba@)[i],
        decreases n - k,
    {
        assert(4 * k + 3 < rgba@.len()) by (nonlinear_arith)
            requires k < n, n == len / 4, len == rgba@.len();
        let base = 4 * k;
        let alpha = rgba[base + 3];
        let b = premultiply_channel(rgba[base + 2], alpha);
        let g = premultiply_channel(rgba[base + 1], alpha);
        let r = premultiply_channel(rgba[base], alpha);
        out.push(b);
        out.push(g);
        out.push(r);
        out.push(alpha);
        assert forall|i: int| 4 * k <= i < 4 * k + 4 implies out@[i] == premultiplied_bgra(rgba@)[i] by {
            assert(i / 4 == k);
            assert(i % 4 == i - 4 * k);
        }
        k = k + 1;
    }
    assert(out@ =~= premultiplied_bgra(rgba@));
    out
}

/// A channel scaled by alpha never exceeds alpha.
proof fn lemma_premultiply_within_alpha(c: u8, a: u8)
    ensures
        0 <= premultiply(c, a) <= a,
{
    assert(0 <= (c * a + 127) / 255 <= a) by (nonlinear_arith)
        requires c <= 255, a <= 255;
}

/// In premultiplied pixels, no colour channel exceeds the pixel's alpha.
pub proof fn lemma_premultiplied_within_alpha(rgba: Seq<u8>, i: int)
    requires
        0 <= i < premultiplied_bgra(rgba).len(),
    ensures
        premultiplied_bgra(rgba)[i] <= premultiplied_bgra(rgba)[i / 4 * 4 + 3],
{
    let p = i / 4 * 4;
    assert(0 <= p && p + 3 < rgba.len()) by (nonlinear_arith)
        requires 0 <= i < rgba.len() / 4 * 4, p == i / 4 * 4;
    let a = rgba[p + 3];
    lemma_premultiply_within_alpha(rgba[p], a);
    lemma_premultiply_within_alpha(rgba[p + 1], a);
    lemma_premultiply_within_alpha(rgba[p + 2], a);
    assert(i / 4 * 4 + 3 < premultiplied_bgra(rgba).len());
    assert((i / 4 * 4 + 3) / 4 * 4 == p && (i / 4 * 4 + 3) % 4 == 3) by (nonlinear_arith)
        requires 0 <= i, p == i / 4 * 4;
}

/// What the PNG decoder reports about a decoded frame, as plain values: the
/// PNG colour type code (0 grey, 2 RGB, 3 indexed, 4 grey with alpha,
/// 6 RGBA) and bit depth (1, 2, 4, 8 or 16) of the output, and the byte
/// length of one output row.
pub struct FrameInfo {
    pub width: u32,
    pub height: u32,
    pub color_type: u8,
    pub bit_depth: u8,
    pub line_size: usize,
}

/// The side of the square translate-button image, in pixels.
pub open spec fn button_image_side() -> int {
    42
}

/// The PNG colour type code of RGBA pixels.
pub open spec fn rgba_color_type() -> int {
    6
}

/// The frame is a 42 by 42 image of 8-bit RGBA pixels.
pub open spec fn is_button_frame(info: FrameInfo) -> bool {
    info.width == button_image_side() && info.height == button_image_side() && info.color_type
        == rgba_color_type() && info.bit_depth == 8
}

/// The number of bytes of a decoded frame, as `OutputInfo::buffer_size`.
pub open spec fn frame_bytes(info: FrameInfo) -> int {
    info.line_size * info.height
}

/// The error for an image of the wrong shape.
pub open spec fn bad_button_image_message() -> Seq<char> {
    "translate button asset must be a 42x42 RGBA8 PNG"@
}

/// The pixels of the translate button from a decoded frame: the frame must
/// be a 42 by 42 RGBA8 image; its bytes are turned into premultiplied BGRA.
pub fn button_pixels(info: &FrameInfo, rgba: &[u8]) -> (res: Result<Vec<u8>, String>)
    requires
        is_button_frame(*info) ==> frame_bytes(*info) <= rgba@.len(),
    ensures
        match res {
            Ok(v) => is_button_frame(*info) && v@ == premultiplied_bgra(rgba@.take(frame_bytes(*info))),
            Err(m) => !is_button_frame(*info) && m@ == bad_button_image_message(),
        },
{
    if info.width != 42 || info.height != 42 || info.color_type != 6 || info.bit_depth != 8 {
        return Err("translate button asset must be a 42x42 RGBA8 PNG".to_owned());
    }
    let n = rgba.len();
    assert(info.line_size * info.height <= n);
    let size = info.line_size * 42;
    let pixels = slice_subrange(rgba, 0, size);
    assert(pixels@ =~= rgba@.take(frame_bytes(*info)));
    Ok(rgba_to_premultiplied_bgra(pixels))
}

/// What decoding the first frame of the PNG file `bytes` gives: the frame's
/// width, height, colour type code, bit depth and row length, and the output
/// buffer it was decoded into; or the decoder's error text.
pub uninterp spec fn png_first_frame(bytes: Seq<u8>) -> Result<(u32, u32, u8, u8, usize, Seq<u8>), Seq<char>>;

/// The frame information in a decoding result.
pub open spec fn frame_info_of(frame: (u32, u32, u8, u8, usize, Seq<u8>)) -> FrameInfo {
    FrameInfo { width: frame.0, height: frame.1, color_type: frame.2, bit_depth: frame.3, line_size: frame.4 }
}

/// Decodes the first frame of an in-memory PNG file with the `png` crate:
/// `Decoder::new`, `Decoder::read_info`, a zeroed buffer of
/// `Reader::output_buffer_size` bytes, and `Reader::next_frame` into it.
/// The contract names the result as a function of the bytes alone (the
/// decoder is deterministic); the colour type and bit depth are the
/// discriminants of `png::ColorType` and `png::BitDepth`. Errors carry the
/// decoder's text. `read_info` rejects headers whose frame byte count
/// would overflow, so `output_buffer_size` does not overflow after it.
#[verifier::external_body]
fn png_decode_first_frame(bytes: &[u8]) -> (res: Result<(FrameInfo, Vec<u8>), String>)
    ensures
        match res {
            Ok((info, buf)) => png_first_frame(bytes@) == Ok::<(u32, u32, u8, u8, usize, Seq<u8>), Seq<char>>(
                (info.width, info.height, info.color_type, info.bit_depth, info.line_size, buf@),
            ),
            Err(m) => png_first_frame(bytes@) == Err::<(u32, u32, u8, u8, usize, Seq<u8>), Seq<char>>(m@),
        },
{
    let mut reader = match png::Decoder::new(bytes).read_info() {
        Ok(reader) => reader,
        Err(error) => return Err(error.to_string()),
    };
    let mut buf = vec![0u8; reader.output_buffer_size()];
    match reader.next_frame(&mut buf) {
        Ok(i) => Ok((FrameInfo { width: i.width, height: i.height, color_type: i.color_type as u8,
            bit_depth: i.bit_depth as u8, line_size: i.line_size }, buf)),
        Err(error) => Err(error.to_string()),
    }
}

/// The message when the decoder reports a frame larger than its buffer.
pub open spec fn short_frame_message() -> Seq<char> {
    "decoded frame exceeds its buffer"@
}

/// The pixels of the translate button from a decoded frame and its output
/// buffer: the frame must be a 42 by 42 RGBA8 image whose bytes fit in the
/// buffer; they are turned into premultiplied BGRA.
pub open spec fn frame_outcome(info: FrameInfo, rgba: Seq<u8>) -> Result<Seq<u8>, Seq<char>> {
    if !is_button_frame(info) {
        Err(bad_button_image_message())
    } else if frame_bytes(info) > rgba.len() {
        Err(short_frame_message())
    } else {
        Ok(premultiplied_bgra(rgba.take(frame_bytes(info))))
    }
}

/// The outcome of decoding the translate-button PNG `bytes`.
pub open spec fn icon_outcome(bytes: Seq<u8>) -> Result<Seq<u8>, Seq<char>> {
    match png_first_frame(bytes) {
        Err(m) => Err(m),
        Ok(frame) => frame_outcome(frame_info_of(frame), frame.5),
    }
}

/// Turns a decoded frame into the translate button's pixels (see
/// `frame_outcome`).
pub fn icon_from_frame(info: &FrameInfo, rgba: &[u8]) -> (res: Result<Vec<u8>, String>)
    ensures
        match res {
            Ok(v) => frame_outcome(*info, rgba@) == Ok::<Seq<u8>, Seq<char>>(v@),
            Err(m) => frame_outcome(*info, rgba@) == Err::<Seq<u8>, Seq<char>>(m@),
        },
{
    let n = rgba.len();
    if info.width == 42 && info.height == 42 && info.color_type == 6 && info.bit_depth == 8 {
        let fits = match info.line_size.checked_mul(42) {
            Some(size) => size <= n,
            None => false,
        };
        if !fits {
            return Err("decoded frame exceeds its buffer".to_owned());
        }
    }
    button_pixels(info, rgba)
}

/// Decodes the translate-button PNG into premultiplied BGRA pixels (see
/// `icon_outcome`): the first frame must be a 42 by 42 RGBA8 image, and
/// decoding errors carry the decoder's text.
pub fn decode_icon_bgra(png_bytes: &[u8]) -> (res: Result<Vec<u8>, String>)
    ensures
        match res {
            Ok(v) => icon_outcome(png_bytes@) == Ok::<Seq<u8>, Seq<char>>(v@),
            Err(m) => icon_outcome(png_bytes@) == Err::<Seq<u8>, Seq<char>>(m@),
        },
{
    let (info, rgba) = match png_decode_first_frame(png_bytes) {
        Ok(frame) => frame,
        Err(message) => return Err(message),
    };
    icon_from_frame(&info, rgba.as_slice())
}

} // verus!
