//! Pure decoding of raw framebuffer scanlines into canonical RGBA bytes.
//!
//! The decoder understands a small set of hardware pixel encodings.  Each
//! scanline may carry alignment padding (`pitch` bytes per row, at least
//! `width` times the per-pixel size); the padding is skipped, never decoded.

use vstd::arithmetic::div_mod::{
    lemma_fundamental_div_mod_converse_div, lemma_fundamental_div_mod_converse_mod,
};
use vstd::prelude::*;

use crate::error::{CaptureError, EncodingTag};

verus! {

/// A pixel encoding the capture pipeline may meet.  The first five are the
/// encodings the decoder understands; any other hardware format tag is
/// carried as its raw four-character code.
#[derive(Clone, Copy, Debug, PartialEq, Eq, Structural)]
pub enum PixelFormat {
    /// Little-endian [B, G, R, X] per pixel; the fourth byte is padding.
    Xrgb8888,
    /// Little-endian [B, G, R, A] per pixel.
    Argb8888,
    /// Little-endian [R, G, B, X] per pixel; the fourth byte is padding.
    Xbgr8888,
    /// Little-endian [R, G, B, A] per pixel.
    Abgr8888,
    /// 16-bit little-endian word with 5 red, 6 green, 5 blue bits.
    Rgb565,
    /// Any other format tag, kept as its raw code.
    Other { fourcc: u32 },
}

/// Whether the decoder understands this encoding.
pub open spec fn format_supported(f: PixelFormat) -> bool {
    !(f matches PixelFormat::Other { .. })
}

/// Source bytes per pixel of an encoding (0 for unrecognized tags).
pub open spec fn spec_bpp(f: PixelFormat) -> int {
    match f {
        PixelFormat::Rgb565 => 2,
        PixelFormat::Other { .. } => 0,
        _ => 4,
    }
}

/// Source bytes per pixel of an encoding, as executable code.
pub fn bytes_per_pixel(f: PixelFormat) -> (r: u32)
    ensures
        r == spec_bpp(f),
{
    match f {
        PixelFormat::Rgb565 => 2,
        PixelFormat::Other { .. } => 0,
        _ => 4,
    }
}

/// Replicate the high bits of a 5-bit channel value into the low bits of an
/// 8-bit channel: `v * 255 / 31`, computed as `(v << 3) | (v >> 2)`.
pub open spec fn expand5(v: u8) -> u8 {
    (v << 3) | (v >> 2)
}

/// Replicate the high bits of a 6-bit channel value into the low bits of an
/// 8-bit channel.
pub open spec fn expand6(v: u8) -> u8 {
    (v << 2) | (v >> 4)
}

/// The 16-bit word formed by two little-endian bytes.
pub open spec fn word_le(lo: u8, hi: u8) -> u16 {
    (lo as u16) | ((hi as u16) << 8)
}

/// The four canonical RGBA bytes of the pixel at column `x` of row `y`.
pub open spec fn pixel_at(f: PixelFormat, src: Seq<u8>, pitch: int, x: int, y: int) -> Seq<u8> {
    let base = y * pitch + x * spec_bpp(f);
    match f {
        PixelFormat::Xrgb8888 => seq![src[base + 2], src[base + 1], src[base], 0xFFu8],
        PixelFormat::Argb8888 => seq![src[base + 2], src[base + 1], src[base], src[base + 3]],
        PixelFormat::Xbgr8888 => seq![src[base], src[base + 1], src[base + 2], 0xFFu8],
        PixelFormat::Abgr8888 => seq![src[base], src[base + 1], src[base + 2], src[base + 3]],
        PixelFormat::Rgb565 => {
            let w = word_le(src[base], src[base + 1]);
            seq![
                expand5(((w >> 11) & 0x1f) as u8),
                expand6(((w >> 5) & 0x3f) as u8),
                expand5((w & 0x1f) as u8),
                0xFFu8,
            ]
        },
        PixelFormat::Other { .. } => seq![0u8, 0u8, 0u8, 0u8],
    }
}

/// Byte `i` of the canonical image: byte `i % 4` of pixel `i / 4`, taken
/// row-major over a `width`-pixel-wide image.
pub open spec fn pixel_byte(f: PixelFormat, src: Seq<u8>, width: int, pitch: int, i: int) -> u8 {
    pixel_at(f, src, pitch, (i / 4) % width, (i / 4) / width)[i % 4]
}

/// The whole canonical image: `width * height * 4` bytes, row-major, no
/// padding.
pub open spec fn decode_bytes(
    f: PixelFormat,
    src: Seq<u8>,
    width: int,
    height: int,
    pitch: int,
) -> Seq<u8> {
    Seq::new((width * height * 4) as nat, |i: int| pixel_byte(f, src, width, pitch, i))
}

/// Flat-index arithmetic for the byte `c` of the pixel at `(x, y)`.
proof fn lemma_pixel_offsets(width: int, x: int, y: int, c: int)
    requires
        0 <= x < width,
        0 <= y,
        0 <= c < 4,
    ensures
        ((y * width + x) * 4 + c) / 4 == y * width + x,
        ((y * width + x) * 4 + c) % 4 == c,
        (y * width + x) % width == x,
        (y * width + x) / width == y,
        (y * width + x) * 4 + c >= 0,
{
    let q = y * width + x;
    assert(y * width + x >= 0) by (nonlinear_arith)
        requires
            0 <= x,
            0 <= y,
            0 < width,
    ;
    lemma_fundamental_div_mod_converse_div(q * 4 + c, 4, q, c);
    lemma_fundamental_div_mod_converse_mod(q * 4 + c, 4, q, c);
    lemma_fundamental_div_mod_converse_div(q, width, y, x);
    lemma_fundamental_div_mod_converse_mod(q, width, y, x);
}

/// The source bytes of the pixel at `(x, y)` lie inside the read domain:
/// the full rows before the last, and the last row up to its final pixel.
proof fn lemma_offset_in_bounds(width: int, height: int, pitch: int, bpp: int, x: int, y: int)
    by (nonlinear_arith)
    requires
        0 <= x < width,
        0 <= y < height,
        bpp > 0,
        pitch >= width * bpp,
    ensures
        0 <= y * pitch,
        0 <= x * bpp,
        y * pitch + x * bpp + bpp <= (height - 1) * pitch + width * bpp,
{
}

/// Decode one of the four 32-bit packed encodings.
#[verifier::loop_isolation(false)]
fn convert_packed4(src: &[u8], width: u32, height: u32, pitch: u32, f: PixelFormat) -> (r: Vec<
    u8,
>)
    requires
        spec_bpp(f) == 4,
        pitch >= width * 4,
        height > 0 ==> src@.len() >= (height - 1) * pitch + width * 4,
    ensures
        r@ == decode_bytes(f, src@, width as int, height as int, pitch as int),
{
    let n: usize = src.len();
    let mut dst: Vec<u8> = Vec::new();
    let mut y: u32 = 0;
    while y < height
        invariant
            y <= height,
            dst@.len() == (y * width) * 4,
            forall|i: int|
                0 <= i < dst@.len() ==> dst@[i] == pixel_byte(
                    f,
                    src@,
                    width as int,
                    pitch as int,
                    i,
                ),
        decreases height - y,
    {
        let mut x: u32 = 0;
        while x < width
            invariant
                y < height,
                x <= width,
                dst@.len() == (y * width + x) * 4,
                forall|i: int|
                    0 <= i < dst@.len() ==> dst@[i] == pixel_byte(
                        f,
                        src@,
                        width as int,
                        pitch as int,
                        i,
                    ),
            decreases width - x,
        {
            proof {
                lemma_offset_in_bounds(
                    width as int,
                    height as int,
                    pitch as int,
                    4,
                    x as int,
                    y as int,
                );
            }
            let base: usize = (y as usize) * (pitch as usize) + (x as usize) * 4;
            let pix: (u8, u8, u8, u8) = match f {
                PixelFormat::Xrgb8888 => (src[base + 2], src[base + 1], src[base], 0xFF),
                PixelFormat::Argb8888 => (src[base + 2], src[base + 1], src[base], src[base + 3]),
                PixelFormat::Xbgr8888 => (src[base], src[base + 1], src[base + 2], 0xFF),
                PixelFormat::Abgr8888 => (src[base], src[base + 1], src[base + 2], src[base + 3]),
                _ => (0, 0, 0, 0),
            };
            proof {
                assert(seq![pix.0, pix.1, pix.2, pix.3] =~= pixel_at(
                    f,
                    src@,
                    pitch as int,
                    x as int,
                    y as int,
                ));
            }
            let ghost old_len = dst@.len() as int;
            dst.push(pix.0);
            dst.push(pix.1);
            dst.push(pix.2);
            dst.push(pix.3);
            proof {
                let q = y as int * width as int + x as int;
                lemma_pixel_offsets(width as int, x as int, y as int, 0);
                lemma_pixel_offsets(width as int, x as int, y as int, 1);
                lemma_pixel_offsets(width as int, x as int, y as int, 2);
                lemma_pixel_offsets(width as int, x as int, y as int, 3);
                assert(dst@[q * 4 + 0] == pixel_byte(f, src@, width as int, pitch as int, q * 4 + 0));
                assert(dst@[q * 4 + 1] == pixel_byte(f, src@, width as int, pitch as int, q * 4 + 1));
                assert(dst@[q * 4 + 2] == pixel_byte(f, src@, width as int, pitch as int, q * 4 + 2));
                assert(dst@[q * 4 + 3] == pixel_byte(f, src@, width as int, pitch as int, q * 4 + 3));
            }
            x = x + 1;
        }
        proof {
            assert(y as int * width + width == (y + 1) as int * width) by (nonlinear_arith);
        }
        y = y + 1;
    }
    proof {
        assert((height as int * width as int) * 4 == width as int * height as int * 4)
            by (nonlinear_arith);
        assert(dst@ =~= decode_bytes(f, src@, width as int, height as int, pitch as int));
    }
    dst
}

/// Decode a [B, G, R, X] buffer; the padding byte is ignored and alpha is
/// forced opaque.
pub fn convert_xrgb8888(src: &[u8], width: u32, height: u32, pitch: u32) -> (r: Result<
    Vec<u8>,
    CaptureError,
>)
    requires
        pitch >= width * 4,
        height > 0 ==> src@.len() >= (height - 1) * pitch + width * 4,
    ensures
        r matches Ok(d) && d@ == decode_bytes(
            PixelFormat::Xrgb8888,
            src@,
            width as int,
            height as int,
            pitch as int,
        ),
{
    Ok(convert_packed4(src, width, height, pitch, PixelFormat::Xrgb8888))
}

/// Decode a [B, G, R, A] buffer; the source alpha byte is kept.
pub fn convert_argb8888(src: &[u8], width: u32, height: u32, pitch: u32) -> (r: Result<
    Vec<u8>,
    CaptureError,
>)
    requires
        pitch >= width * 4,
        height > 0 ==> src@.len() >= (height - 1) * pitch + width * 4,
    ensures
        r matches Ok(d) && d@ == decode_bytes(
            PixelFormat::Argb8888,
            src@,
            width as int,
            height as int,
            pitch as int,
        ),
{
    Ok(convert_packed4(src, width, height, pitch, PixelFormat::Argb8888))
}

/// Decode a [R, G, B, X] buffer; the padding byte is ignored and alpha is
/// forced opaque.
pub fn convert_xbgr8888(src: &[u8], width: u32, height: u32, pitch: u32) -> (r: Result<
    Vec<u8>,
    CaptureError,
>)
    requires
        pitch >= width * 4,
        height > 0 ==> src@.len() >= (height - 1) * pitch + width * 4,
    ensures
        r matches Ok(d) && d@ == decode_bytes(
            PixelFormat::Xbgr8888,
            src@,
            width as int,
            height as int,
            pitch as int,
        ),
{
    Ok(convert_packed4(src, width, height, pitch, PixelFormat::Xbgr8888))
}

/// Decode a [R, G, B, A] buffer; the source alpha byte is kept.
pub fn convert_abgr8888(src: &[u8], width: u32, height: u32, pitch: u32) -> (r: Result<
    Vec<u8>,
    CaptureError,
>)
    requires
        pitch >= width * 4,
        height > 0 ==> src@.len() >= (height - 1) * pitch + width * 4,
    ensures
        r matches Ok(d) && d@ == decode_bytes(
            PixelFormat::Abgr8888,
            src@,
            width as int,
            height as int,
            pitch as int,
        ),
{
    Ok(convert_packed4(src, width, height, pitch, PixelFormat::Abgr8888))
}

/// Decode a 16-bit 5-6-5 buffer, replicating the high bits of each channel
/// into the low bits of the 8-bit result; alpha is forced opaque.
#[verifier::loop_isolation(false)]
pub fn convert_rgb565(src: &[u8], width: u32, height: u32, pitch: u32) -> (r: Result<
    Vec<u8>,
    CaptureError,
>)
    requires
        pitch >= width * 2,
        height > 0 ==> src@.len() >= (height - 1) * pitch + width * 2,
    ensures
        r matches Ok(d) && d@ == decode_bytes(
            PixelFormat::Rgb565,
            src@,
            width as int,
            height as int,
            pitch as int,
        ),
{
    let ghost f = PixelFormat::Rgb565;
    let n: usize = src.len();
    let mut dst: Vec<u8> = Vec::new();
    let mut y: u32 = 0;
    while y < height
        invariant
            y <= height,
            dst@.len() == (y * width) * 4,
            forall|i: int|
                0 <= i < dst@.len() ==> dst@[i] == pixel_byte(
                    f,
                    src@,
                    width as int,
                    pitch as int,
                    i,
                ),
        decreases height - y,
    {
        let mut x: u32 = 0;
        while x < width
            invariant
                y < height,
                x <= width,
                dst@.len() == (y * width + x) * 4,
                forall|i: int|
                    0 <= i < dst@.len() ==> dst@[i] == pixel_byte(
                        f,
                        src@,
                        width as int,
                        pitch as int,
                        i,
                    ),
            decreases width - x,
        {
            proof {
                lemma_offset_in_bounds(
                    width as int,
                    height as int,
                    pitch as int,
                    2,
                    x as int,
                    y as int,
                );
            }
            let base: usize = (y as usize) * (pitch as usize) + (x as usize) * 2;
            let lo = src[base];
            let hi = src[base + 1];
            let word: u16 = (lo as u16) | ((hi as u16) << 8);
            let r5: u8 = ((word >> 11) & 0x1f) as u8;
            let g6: u8 = ((word >> 5) & 0x3f) as u8;
            let b5: u8 = (word & 0x1f) as u8;
            let pix: (u8, u8, u8, u8) = (
                (r5 << 3) | (r5 >> 2),
                (g6 << 2) | (g6 >> 4),
                (b5 << 3) | (b5 >> 2),
                0xFF,
            );
            proof {
                assert(seq![pix.0, pix.1, pix.2, pix.3] =~= pixel_at(
                    f,
                    src@,
                    pitch as int,
                    x as int,
                    y as int,
                ));
            }
            dst.push(pix.0);
            dst.push(pix.1);
            dst.push(pix.2);
            dst.push(pix.3);
            proof {
                let q = y as int * width as int + x as int;
                lemma_pixel_offsets(width as int, x as int, y as int, 0);
                lemma_pixel_offsets(width as int, x as int, y as int, 1);
                lemma_pixel_offsets(width as int, x as int, y as int, 2);
                lemma_pixel_offsets(width as int, x as int, y as int, 3);
                assert(dst@[q * 4 + 0] == pixel_byte(f, src@, width as int, pitch as int, q * 4 + 0));
                assert(dst@[q * 4 + 1] == pixel_byte(f, src@, width as int, pitch as int, q * 4 + 1));
                assert(dst@[q * 4 + 2] == pixel_byte(f, src@, width as int, pitch as int, q * 4 + 2));
                assert(dst@[q * 4 + 3] == pixel_byte(f, src@, width as int, pitch as int, q * 4 + 3));
            }
            x = x + 1;
        }
        proof {
            assert(y as int * width + width == (y + 1) as int * width) by (nonlinear_arith);
        }
        y = y + 1;
    }
    proof {
        assert((height as int * width as int) * 4 == width as int * height as int * 4)
            by (nonlinear_arith);
        assert(dst@ =~= decode_bytes(f, src@, width as int, height as int, pitch as int));
    }
    Ok(dst)
}

/// Decode a raw scanline buffer in any recognized encoding; an unrecognized
/// tag is the decoder's one failure.
pub fn convert_to_rgba(src: &[u8], width: u32, height: u32, pitch: u32, format: PixelFormat) -> (r:
    Result<Vec<u8>, CaptureError>)
    requires
        format_supported(format) ==> pitch >= width * spec_bpp(format),
        format_supported(format) && height > 0 ==> src@.len() >= (height - 1) * pitch + width
            * spec_bpp(format),
    ensures
        r is Ok <==> format_supported(format),
        format_supported(format) ==> (r matches Ok(d) && d@ == decode_bytes(
            format,
            src@,
            width as int,
            height as int,
            pitch as int,
        )),
        format matches PixelFormat::Other { fourcc } ==> r == Result::<
            Vec<u8>,
            CaptureError,
        >::Err(CaptureError::UnsupportedEncoding { tag: EncodingTag::Fourcc { code: fourcc } }),
{
    match format {
        PixelFormat::Xrgb8888 => convert_xrgb8888(src, width, height, pitch),
        PixelFormat::Argb8888 => convert_argb8888(src, width, height, pitch),
        PixelFormat::Xbgr8888 => convert_xbgr8888(src, width, height, pitch),
        PixelFormat::Abgr8888 => convert_abgr8888(src, width, height, pitch),
        PixelFormat::Rgb565 => convert_rgb565(src, width, height, pitch),
        PixelFormat::Other { fourcc } => Err(
            CaptureError::UnsupportedEncoding { tag: EncodingTag::Fourcc { code: fourcc } },
        ),
    }
}

/// Decoding always produces exactly `width * height * 4` bytes.
pub proof fn lemma_decode_len(f: PixelFormat, src: Seq<u8>, width: int, height: int, pitch: int)
    requires
        width >= 0,
        height >= 0,
    ensures
        decode_bytes(f, src, width, height, pitch).len() == width * height * 4,
{
    assert(width * height * 4 >= 0) by (nonlinear_arith)
        requires
            width >= 0,
            height >= 0,
    ;
}

/// Encodings without an alpha channel always decode with alpha 255,
/// whatever the ignored source bytes hold.
pub proof fn lemma_opaque_alpha(
    f: PixelFormat,
    src: Seq<u8>,
    width: int,
    height: int,
    pitch: int,
    i: int,
)
    requires
        f is Xrgb8888 || f is Xbgr8888 || f is Rgb565,
        0 <= i < width * height * 4,
        i % 4 == 3,
    ensures
        decode_bytes(f, src, width, height, pitch)[i] == 0xFF,
{
}

/// Alpha-bearing packed encodings hand the source alpha byte through
/// unchanged: the alpha of pixel `(x, y)` is source byte `y * pitch + x * 4
/// + 3`.
pub proof fn lemma_alpha_preserved(
    f: PixelFormat,
    src: Seq<u8>,
    width: int,
    height: int,
    pitch: int,
    x: int,
    y: int,
)
    requires
        f is Argb8888 || f is Abgr8888,
        0 <= x < width,
        0 <= y < height,
    ensures
        decode_bytes(f, src, width, height, pitch)[(y * width + x) * 4 + 3] == src[y * pitch + x
            * 4 + 3],
{
    lemma_pixel_offsets(width, x, y, 3);
    assert((y * width + x) * 4 + 3 < width * height * 4) by (nonlinear_arith)
        requires
            0 <= x < width,
            0 <= y < height,
    ;
}

} // verus!
