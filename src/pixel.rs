use vstd::arithmetic::div_mod::lemma_fundamental_div_mod_converse;
use vstd::arithmetic::mul::lemma_mul_inequality;
use vstd::prelude::*;

verus! {

/// Pixel layouts a core may hand to the video-refresh callback.
#[derive(Debug, Clone, Copy, PartialEq, Eq, Structural)]
pub enum RetroPixelFormat {
    /// 32-bit little-endian XRGB: bytes are B, G, R, X.
    Xrgb8888,
    /// 16-bit little-endian 5-6-5.
    Rgb565,
    /// 16-bit little-endian 1-5-5-5 (top bit unused).
    _0rgb1555,
}

pub open spec fn pixel_format_from_raw(raw: u32) -> Option<RetroPixelFormat> {
    if raw == 0 {
        Some(RetroPixelFormat::Xrgb8888)
    } else if raw == 1 {
        Some(RetroPixelFormat::Rgb565)
    } else if raw == 2 {
        Some(RetroPixelFormat::_0rgb1555)
    } else {
        None
    }
}

impl RetroPixelFormat {
    /// Decodes the ABI's integer encoding of a pixel format.
    pub fn from_raw(raw: u32) -> (r: Option<RetroPixelFormat>)
        ensures
            r == pixel_format_from_raw(raw),
    {
        if raw == 0 {
            Some(RetroPixelFormat::Xrgb8888)
        } else if raw == 1 {
            Some(RetroPixelFormat::Rgb565)
        } else if raw == 2 {
            Some(RetroPixelFormat::_0rgb1555)
        } else {
            None
        }
    }
}

pub open spec fn spec_bytes_per_pixel(format: RetroPixelFormat) -> int {
    match format {
        RetroPixelFormat::Xrgb8888 => 4,
        _ => 2,
    }
}

/// Size in bytes of one source pixel.
pub fn bytes_per_pixel(format: RetroPixelFormat) -> (r: usize)
    ensures
        r == spec_bytes_per_pixel(format),
{
    match format {
        RetroPixelFormat::Xrgb8888 => 4,
        _ => 2,
    }
}

/// An owned copy of one frame the core produced.
#[derive(Debug, Clone)]
pub struct VideoFrame {
    pub width: u32,
    pub height: u32,
    /// Bytes from the start of one row to the start of the next.
    pub pitch: usize,
    pub pixel_format: RetroPixelFormat,
    pub data: Vec<u8>,
}

/// A 5-bit channel widened to 8 bits by replicating its top bits.
pub open spec fn expand5(v: int) -> int {
    v * 8 + v / 4
}

/// A 6-bit channel widened to 8 bits by replicating its top bits.
pub open spec fn expand6(v: int) -> int {
    v * 4 + v / 16
}

/// Little-endian 16-bit value at offset `o`.
pub open spec fn le16(d: Seq<u8>, o: int) -> int {
    d[o] as int + 256 * d[o + 1] as int
}

pub open spec fn source_offset(f: VideoFrame, x: int, y: int) -> int {
    y * f.pitch + x * spec_bytes_per_pixel(f.pixel_format)
}

/// Channel `c` (0 red, 1 green, 2 blue, 3 alpha) of the pixel at column `x`,
/// row `y`, in 8-bit RGBA.
pub open spec fn rgba_channel(f: VideoFrame, x: int, y: int, c: int) -> u8 {
    let d = f.data@;
    let o = source_offset(f, x, y);
    if c == 3 {
        255u8
    } else {
        match f.pixel_format {
            RetroPixelFormat::Xrgb8888 => d[o + 2 - c],
            RetroPixelFormat::Rgb565 => {
                let v = le16(d, o);
                if c == 0 {
                    expand5(v / 2048) as u8
                } else if c == 1 {
                    expand6((v / 32) % 64) as u8
                } else {
                    expand5(v % 32) as u8
                }
            },
            RetroPixelFormat::_0rgb1555 => {
                let v = le16(d, o);
                if c == 0 {
                    expand5((v / 1024) % 32) as u8
                } else if c == 1 {
                    expand5((v / 32) % 32) as u8
                } else {
                    expand5(v % 32) as u8
                }
            },
        }
    }
}

/// The frame's rows are at least wide enough for its pixels and the buffer
/// holds `pitch * height` bytes.
pub open spec fn frame_fits(f: VideoFrame) -> bool {
    &&& f.pitch >= f.width * spec_bytes_per_pixel(f.pixel_format)
    &&& f.data@.len() >= f.pitch * f.height
}

/// The RGBA image of a frame: empty for a zero-sized frame, all zero bytes
/// when the buffer cannot hold the frame, else the converted pixels row by
/// row.
pub open spec fn rgba_of(f: VideoFrame) -> Seq<u8> {
    let w = f.width as int;
    let h = f.height as int;
    if w == 0 || h == 0 {
        Seq::empty()
    } else if !frame_fits(f) {
        Seq::new((w * h * 4) as nat, |i: int| 0u8)
    } else {
        Seq::new((w * h * 4) as nat, |i: int| rgba_channel(f, (i / 4) % w, (i / 4) / w, i % 4))
    }
}

/// Widening replicates the top bits, so a channel at its 5- or 6-bit maximum
/// becomes 255 and one at zero stays 0; every widened value fits a byte and
/// widening keeps the order of values.
pub proof fn law_channel_widening(v: int, w: int)
    requires
        0 <= v <= w,
    ensures
        expand5(31) == 255,
        expand6(63) == 255,
        expand5(0) == 0,
        expand6(0) == 0,
        w < 32 ==> 0 <= expand5(v) <= expand5(w) <= 255,
        w < 64 ==> 0 <= expand6(v) <= expand6(w) <= 255,
{
}

proof fn lemma_rgba_index(w: int, x: int, y: int, c: int)
    requires
        0 <= x < w,
        0 <= y,
        0 <= c < 4,
    ensures
        ((y * w + x) * 4 + c) / 4 == y * w + x,
        ((y * w + x) * 4 + c) % 4 == c,
        (y * w + x) % w == x,
        (y * w + x) / w == y,
{
    lemma_fundamental_div_mod_converse((y * w + x) * 4 + c, 4, y * w + x, c);
    lemma_fundamental_div_mod_converse(y * w + x, w, y, x);
}

/// Reads the little-endian 16-bit value at `o`.
fn read_le16(d: &Vec<u8>, o: usize) -> (v: u16)
    requires
        o + 1 < d.len(),
    ensures
        v as int == le16(d@, o as int),
{
    d[o] as u16 + (d[o + 1] as u16) * 256
}

fn widen5(v: u16) -> (r: u8)
    requires
        v < 32,
    ensures
        r as int == expand5(v as int),
{
    (v * 8 + v / 4) as u8
}

fn widen6(v: u16) -> (r: u8)
    requires
        v < 64,
    ensures
        r as int == expand6(v as int),
{
    (v * 4 + v / 16) as u8
}

/// Red, green and blue of the source pixel starting at byte `o`.
fn convert_pixel(f: &VideoFrame, o: usize, Ghost(x): Ghost<int>, Ghost(y): Ghost<int>) -> (rgb: (
    u8,
    u8,
    u8,
))
    requires
        o == source_offset(*f, x, y),
        o + spec_bytes_per_pixel(f.pixel_format) <= f.data.len(),
    ensures
        rgb.0 == rgba_channel(*f, x, y, 0),
        rgb.1 == rgba_channel(*f, x, y, 1),
        rgb.2 == rgba_channel(*f, x, y, 2),
{
    match f.pixel_format {
        RetroPixelFormat::Xrgb8888 => (f.data[o + 2], f.data[o + 1], f.data[o]),
        RetroPixelFormat::Rgb565 => {
            let v = read_le16(&f.data, o);
            (widen5(v / 2048), widen6((v / 32) % 64), widen5(v % 32))
        },
        RetroPixelFormat::_0rgb1555 => {
            let v = read_le16(&f.data, o);
            (widen5((v / 1024) % 32), widen5((v / 32) % 32), widen5(v % 32))
        },
    }
}

/// Converts a frame to tightly packed 8-bit RGBA, four bytes per pixel, rows
/// top to bottom. Row padding beyond `width` pixels is skipped.
pub fn convert_frame_to_rgba(frame: &VideoFrame) -> (out: Vec<u8>)
    requires
        frame.width as int * frame.height as int * 4 <= usize::MAX,
    ensures
        out@ == rgba_of(*frame),
{
    let w = frame.width as usize;
    let h = frame.height as usize;
    if w == 0 || h == 0 {
        let out: Vec<u8> = Vec::new();
        assert(out@ =~= rgba_of(*frame));
        return out;
    }
    assert(w * h <= w * h * 4) by (nonlinear_arith)
        requires
            w * h * 4 <= usize::MAX,
    ;
    let total = w * h * 4;
    let bpp = bytes_per_pixel(frame.pixel_format);
    assert(w * bpp <= w * h * 4) by (nonlinear_arith)
        requires
            bpp <= 4,
            h >= 1,
    ;
    let min_pitch = w * bpp;
    let fits = match frame.pitch.checked_mul(h) {
        Some(n) => frame.pitch >= min_pitch && frame.data.len() >= n,
        None => false,
    };
    if !fits {
        let out: Vec<u8> = vec![0u8; total];
        assert(frame.data@.len() == frame.data.len());
        assert(!frame_fits(*frame));
        assert(out@.len() == total);
        assert(out@ =~= rgba_of(*frame));
        return out;
    }
    let ghost f = *frame;
    let mut out: Vec<u8> = Vec::with_capacity(total);
    let mut y: usize = 0;
    while y < h
        invariant
            f == *frame,
            w == f.width,
            h == f.height,
            w > 0,
            h > 0,
            bpp == spec_bytes_per_pixel(f.pixel_format),
            total == w * h * 4,
            frame_fits(f),
            y <= h,
            out@.len() == y * w * 4,
            forall|i: int|
                0 <= i < out@.len() ==> out@[i] == rgba_channel(f, (i / 4) % w as int, (i / 4) / w as int, i % 4),
        decreases h - y,
    {
        proof {
            lemma_mul_inequality(y as int + 1, h as int, frame.pitch as int);
        }
        assert(y * frame.pitch <= frame.data.len()) by (nonlinear_arith)
            requires
                y < h,
                frame.data@.len() >= frame.pitch * h,
                frame.data.len() == frame.data@.len(),
        ;
        let row_start = y * frame.pitch;
        let mut x: usize = 0;
        while x < w
            invariant
                f == *frame,
                w == f.width,
                h == f.height,
                w > 0,
                bpp == spec_bytes_per_pixel(f.pixel_format),
                frame_fits(f),
                y < h,
                x <= w,
                row_start == y * f.pitch,
                (y + 1) * f.pitch <= f.pitch * h,
                out@.len() == (y * w + x) * 4,
                forall|i: int|
                    0 <= i < out@.len() ==> out@[i] == rgba_channel(f, (i / 4) % w as int, (i / 4) / w as int, i % 4),
            decreases w - x,
        {
            proof {
                lemma_mul_inequality(x as int + 1, w as int, bpp as int);
                assert((y + 1) * f.pitch == y * f.pitch + f.pitch) by (nonlinear_arith);
                assert(f.pitch * h == h * f.pitch) by (nonlinear_arith);
            }
            assert(row_start + x * bpp + bpp <= frame.data.len()) by (nonlinear_arith)
                requires
                    x * bpp + bpp <= w * bpp,
                    w * bpp <= frame.pitch,
                    row_start + frame.pitch <= frame.pitch * h,
                    frame.pitch * h <= frame.data@.len(),
                    frame.data.len() == frame.data@.len(),
            ;
            let src = row_start + x * bpp;
            let (r, g, b) = convert_pixel(frame, src, Ghost(x as int), Ghost(y as int));
            let ghost base = out@.len() as int;
            proof {
                assert((y * w + x + 1) * 4 == (y * w + x) * 4 + 4) by (nonlinear_arith);
                assert(y * w + x + 1 <= w * h) by (nonlinear_arith)
                    requires
                        x < w,
                        y < h,
                ;
                assert(w * h <= w * h * 4) by (nonlinear_arith);
            }
            out.push(r);
            out.push(g);
            out.push(b);
            out.push(255u8);
            proof {
                assert forall|i: int|
                    0 <= i < out@.len() implies out@[i] == rgba_channel(
                    f,
                    (i / 4) % w as int,
                    (i / 4) / w as int,
                    i % 4,
                ) by {
                    if i >= base {
                        lemma_rgba_index(w as int, x as int, y as int, i - base);
                    }
                }
            }
            x = x + 1;
        }
        proof {
            assert((y * w + w) * 4 == (y + 1) * w * 4) by (nonlinear_arith);
        }
        y = y + 1;
    }
    proof {
        assert(out@.len() == w * h * 4) by (nonlinear_arith)
            requires
                out@.len() == y * w * 4,
                y == h,
        ;
    }
    assert(out@ =~= rgba_of(*frame));
    out
}

} // verus!
