//! Pixels of the software renderer: premultiplied Skia pixels become the
//! straight `0x00RRGGBB` words a layered window shows.
use vstd::prelude::*;

verus! {

/// The colour keyed out as transparent by the layered window.
pub const TRANSPARENT_COLOR: u32 = 0x0001_0001;

/// Pixels at or below this alpha are treated as fully transparent.
pub const MIN_VISIBLE_ALPHA: u8 = 8;

/// Undoing premultiplication of one channel, capped at full intensity.
pub open spec fn unpremultiply_spec(channel: u8, alpha: u8) -> nat {
    let v = (channel as nat) * 255 / (alpha as nat);
    if v > 255 { 255 } else { v }
}

/// The window word for one premultiplied pixel: the transparent key when the
/// pixel is (nearly) invisible; otherwise the straight colour, nudged by one
/// when it would collide with the transparent key.
pub open spec fn software_pixel_spec(red: u8, green: u8, blue: u8, alpha: u8) -> u32 {
    if alpha <= MIN_VISIBLE_ALPHA {
        TRANSPARENT_COLOR
    } else {
        let color = unpremultiply_spec(red, alpha) * 65536 + unpremultiply_spec(green, alpha) * 256
            + unpremultiply_spec(blue, alpha);
        if color == TRANSPARENT_COLOR {
            (TRANSPARENT_COLOR + 1) as u32
        } else {
            color as u32
        }
    }
}

fn unpremultiply(channel: u8, alpha: u32) -> (v: u32)
    requires
        8 < alpha <= 255,
    ensures
        v == unpremultiply_spec(channel, alpha as u8),
        v <= 255,
{
    let v = (channel as u32) * 255 / alpha;
    if v > 255 {
        255
    } else {
        v
    }
}

/// Converts one premultiplied pixel to the window's pixel word.
pub fn software_pixel(red: u8, green: u8, blue: u8, alpha: u8) -> (pixel: u32)
    ensures
        pixel == software_pixel_spec(red, green, blue, alpha),
{
    if alpha <= MIN_VISIBLE_ALPHA {
        return TRANSPARENT_COLOR;
    }
    let a = alpha as u32;
    let r = unpremultiply(red, a);
    let g = unpremultiply(green, a);
    let b = unpremultiply(blue, a);
    let color = r << 16 | g << 8 | b;
    assert(r << 16 | g << 8 | b == r * 65536 + g * 256 + b) by (bit_vector)
        requires
            r <= 255,
            g <= 255,
            b <= 255,
    ;
    if color == TRANSPARENT_COLOR {
        TRANSPARENT_COLOR + 1
    } else {
        color
    }
}

/// The red, green and blue bytes of a `0xRRGGBB` colour.
pub fn rgb(value: u32) -> (channels: (u8, u8, u8))
    ensures
        channels.0 == (value / 65536) % 256,
        channels.1 == (value / 256) % 256,
        channels.2 == value % 256,
{
    let red = ((value >> 16) & 0xff) as u8;
    let green = ((value >> 8) & 0xff) as u8;
    let blue = (value & 0xff) as u8;
    assert((value >> 16) & 0xff == (value / 65536) % 256) by (bit_vector);
    assert((value >> 8) & 0xff == (value / 256) % 256) by (bit_vector);
    assert(value & 0xff == value % 256) by (bit_vector);
    (red, green, blue)
}

/// Byte order of a raster's pixels.
#[derive(Clone, Copy, PartialEq, Eq, Structural, Debug)]
pub enum PixelOrder {
    Bgra8888,
    Rgba8888,
    Unsupported,
}

/// The window word of the pixel at column `x` of row `y`.
pub open spec fn frame_pixel(bytes: Seq<u8>, row_bytes: nat, order: PixelOrder, x: nat, y: nat) -> u32 {
    let p: int = (y * row_bytes + x * 4) as int;
    if order == PixelOrder::Bgra8888 {
        software_pixel_spec(bytes[p + 2], bytes[p + 1], bytes[p], bytes[p + 3])
    } else {
        software_pixel_spec(bytes[p], bytes[p + 1], bytes[p + 2], bytes[p + 3])
    }
}

/// Why a software frame could not be converted.
#[derive(Clone, Copy, PartialEq, Eq, Structural, Debug)]
pub enum FrameError {
    UnexpectedSize,
    UnsupportedFormat,
}

/// Converts a Skia raster (rows of `row_bytes` bytes, four bytes a pixel)
/// into the window's buffer, row by row.  The buffer must hold exactly
/// `width * height` pixels; only the two 8-bit-per-channel orders convert,
/// and an unsupported order is noticed at the first pixel.
pub fn convert_frame(
    bytes: &[u8],
    row_bytes: usize,
    width: usize,
    height: usize,
    order: PixelOrder,
    buffer: &mut Vec<u32>,
) -> (result: Result<(), FrameError>)
    requires
        width * height <= usize::MAX,
        width * 4 <= row_bytes || height == 0,
        height == 0 || (height - 1) * row_bytes + width * 4 <= bytes@.len(),
    ensures
        old(buffer)@.len() != width * height ==> result == Err::<(), FrameError>(
            FrameError::UnexpectedSize,
        ) && final(buffer)@ == old(buffer)@,
        old(buffer)@.len() == width * height && order == PixelOrder::Unsupported && width * height
            > 0 ==> result == Err::<(), FrameError>(FrameError::UnsupportedFormat),
        old(buffer)@.len() == width * height && (order != PixelOrder::Unsupported || width * height
            == 0) ==> result is Ok,
        final(buffer)@.len() == old(buffer)@.len(),
        result is Ok ==> forall|y: nat, x: nat|
            y < height && x < width ==> #[trigger] final(buffer)@[(y * width + x) as int]
                == frame_pixel(bytes@, row_bytes as nat, order, x, y),
{
    if buffer.len() != width * height {
        return Err(FrameError::UnexpectedSize);
    }
    let n = bytes.len();
    let mut y: usize = 0;
    while y < height
        invariant
            n == bytes@.len(),
            width * height <= usize::MAX,
            old(buffer)@.len() == width * height,
            width * 4 <= row_bytes || height == 0,
            height == 0 || (height - 1) * row_bytes + width * 4 <= bytes@.len(),
            buffer@.len() == width * height,
            y <= height,
            order == PixelOrder::Unsupported ==> (y == 0 || width == 0),
            forall|yy: nat, x: nat|
                yy < y && x < width ==> #[trigger] buffer@[(yy * width + x) as int] == frame_pixel(
                    bytes@,
                    row_bytes as nat,
                    order,
                    x,
                    yy,
                ),
        decreases height - y,
    {
        let mut x: usize = 0;
        while x < width
            invariant
                n == bytes@.len(),
                width * height <= usize::MAX,
                old(buffer)@.len() == width * height,
                width * 4 <= row_bytes,
                (height - 1) * row_bytes + width * 4 <= bytes@.len(),
                buffer@.len() == width * height,
                y < height,
                x <= width,
                order == PixelOrder::Unsupported ==> (x == 0 && (y == 0 || width == 0)),
                forall|yy: nat, xx: nat|
                    (yy < y && xx < width) || (yy == y && xx < x) ==> #[trigger] buffer@[(yy * width
                        + xx) as int] == frame_pixel(bytes@, row_bytes as nat, order, xx, yy),
            decreases width - x,
        {
            assert(y * row_bytes + x * 4 + 3 < bytes@.len()) by (nonlinear_arith)
                requires
                    y < height,
                    x < width,
                    width * 4 <= row_bytes,
                    (height - 1) * row_bytes + width * 4 <= bytes@.len(),
            ;
            assert(y * width + x < width * height) by (nonlinear_arith)
                requires
                    y < height,
                    x < width,
            ;
            let p = y * row_bytes + x * 4;
            let pixel = match order {
                PixelOrder::Bgra8888 => software_pixel(bytes[p + 2], bytes[p + 1], bytes[p], bytes[p + 3]),
                PixelOrder::Rgba8888 => software_pixel(bytes[p], bytes[p + 1], bytes[p + 2], bytes[p + 3]),
                PixelOrder::Unsupported => {
                    return Err(FrameError::UnsupportedFormat);
                },
            };
            let ghost before = buffer@;
            buffer.set(y * width + x, pixel);
            proof {
                assert forall|yy: nat, xx: nat|
                    (yy < y && xx < width) || (yy == y && xx < x + 1) implies #[trigger] buffer@[(yy
                        * width + xx) as int] == frame_pixel(bytes@, row_bytes as nat, order, xx, yy) by {
                    if yy == y && xx == x {
                    } else {
                        assert(yy * width + xx != y * width + x && yy * width + xx < width * height)
                            by (nonlinear_arith)
                            requires
                                (yy < y && xx < width) || (yy == y && xx < x),
                                x < width,
                                y < height,
                        ;
                        assert(buffer@[(yy * width + xx) as int] == before[(yy * width + xx) as int]);
                    }
                }
            }
            x += 1;
        }
        y += 1;
    }
    Ok(())
}

} // verus!
