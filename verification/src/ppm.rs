//! Plain PPM serialization. A rendered image leaves the pipeline as the
//! ASCII "P3" format: the magic number, the dimensions, the channel maximum
//! 255, then one "r g b" line per pixel in row-major order. The serializer
//! produces exactly the byte sequence that [`ppm_spec`] describes.

use vstd::prelude::*;

verus! {

/// A quantized pixel: gamma-encoded channel values in `0..=255`, ready for
/// the PPM body.
#[derive(Clone, Copy, PartialEq, Eq, Structural, Debug)]
pub struct Rgb8 {
    pub r: u8,
    pub g: u8,
    pub b: u8,
}

/// The shortest decimal numeral of `n`, as ASCII digit bytes.
pub open spec fn decimal_spec(n: nat) -> Seq<u8>
    decreases n,
{
    if n < 10 {
        seq![(48 + n) as u8]
    } else {
        decimal_spec(n / 10).push((48 + n % 10) as u8)
    }
}

/// One body line: the three channels separated by single spaces, terminated
/// by a newline.
pub open spec fn pixel_line_spec(p: Rgb8) -> Seq<u8> {
    decimal_spec(p.r as nat) + seq![32u8] + decimal_spec(p.g as nat) + seq![32u8]
        + decimal_spec(p.b as nat) + seq![10u8]
}

/// The body: one line per pixel, in the order the pixels are given.
pub open spec fn pixel_lines_spec(pixels: Seq<Rgb8>) -> Seq<u8>
    decreases pixels.len(),
{
    if pixels.len() == 0 {
        Seq::empty()
    } else {
        pixel_lines_spec(pixels.drop_last()) + pixel_line_spec(pixels.last())
    }
}

/// The whole file: "P3", a line with width and height, the maximum 255, then
/// the body.
pub open spec fn ppm_spec(width: int, height: int, pixels: Seq<Rgb8>) -> Seq<u8> {
    seq![80u8, 51u8, 10u8]  // "P3\n"
     + decimal_spec(width as nat) + seq![32u8] + decimal_spec(height as nat) + seq![10u8]
        + seq![50u8, 53u8, 53u8, 10u8]  // "255\n"
     + pixel_lines_spec(pixels)
}

/// Append the decimal numeral of `n` to `out`.
fn push_decimal(out: &mut Vec<u8>, n: u32)
    ensures
        final(out)@ == old(out)@ + decimal_spec(n as nat),
    decreases n,
{
    if n < 10 {
        out.push(48 + n as u8);
        proof {
            assert(out@ =~= old(out)@ + decimal_spec(n as nat));
        }
    } else {
        push_decimal(out, n / 10);
        out.push(48 + (n % 10) as u8);
        proof {
            assert(out@ =~= old(out)@ + decimal_spec(n as nat));
        }
    }
}

/// Append one pixel's body line to `out`.
fn push_pixel_line(out: &mut Vec<u8>, p: Rgb8)
    ensures
        final(out)@ == old(out)@ + pixel_line_spec(p),
{
    push_decimal(out, p.r as u32);
    out.push(32);
    push_decimal(out, p.g as u32);
    out.push(32);
    push_decimal(out, p.b as u32);
    out.push(10);
    proof {
        assert(out@ =~= old(out)@ + pixel_line_spec(p));
    }
}

/// Serialize a `width × height` image, given row-major with the top-left
/// pixel first, to the bytes of a plain PPM file.
pub fn ppm_image(width: i32, height: i32, pixels: &Vec<Rgb8>) -> (out: Vec<u8>)
    requires
        0 < width,
        0 < height,
        pixels@.len() == width * height,
    ensures
        out@ == ppm_spec(width as int, height as int, pixels@),
{
    let mut out: Vec<u8> = Vec::new();
    out.push(80);
    out.push(51);
    out.push(10);
    push_decimal(&mut out, width as u32);
    out.push(32);
    push_decimal(&mut out, height as u32);
    out.push(10);
    out.push(50);
    out.push(53);
    out.push(53);
    out.push(10);
    let ghost header = out@;
    proof {
        assert(out@ =~= header + pixel_lines_spec(pixels@.take(0)));
    }
    let n = pixels.len();
    let mut k: usize = 0;
    while k < n
        invariant
            k <= n,
            n == pixels@.len(),
            out@ == header + pixel_lines_spec(pixels@.take(k as int)),
        decreases n - k,
    {
        let p = pixels[k];
        proof {
            assert(pixels@.take(k as int + 1).drop_last() =~= pixels@.take(k as int));
            assert(pixels@.take(k as int + 1).last() == pixels@[k as int]);
        }
        push_pixel_line(&mut out, p);
        k = k + 1;
    }
    proof {
        assert(pixels@.take(n as int) =~= pixels@);
        assert(header + pixel_lines_spec(pixels@)
            =~= ppm_spec(width as int, height as int, pixels@));
    }
    out
}

} // verus!
