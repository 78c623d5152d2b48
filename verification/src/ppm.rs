//! The binary P6 image container.
//!
//! The output stream is the ASCII header `P6 <width> <height> 255 `
//! followed at once by `width * height * 3` raw bytes, three per pixel.
//! The header's numbers are plain decimal; the framing functions here
//! produce exactly those bytes.

use vstd::prelude::*;

verus! {

/// The ASCII digit of a decimal value below ten.
pub open spec fn spec_digit(d: int) -> u8 {
    (0x30 + d) as u8
}

/// The shortest decimal numeral of a non-negative number, most
/// significant digit first.
pub open spec fn spec_decimal(n: int) -> Seq<u8>
    decreases n,
{
    if n < 10 {
        seq![spec_digit(if n >= 0 {
            n
        } else {
            0
        })]
    } else {
        spec_decimal(n / 10) + seq![spec_digit(n % 10)]
    }
}

/// Append the decimal numeral of `n` to `out`.
pub fn push_decimal(n: u64, out: &mut Vec<u8>)
    ensures
        final(out)@ == old(out)@ + spec_decimal(n as int),
    decreases n,
{
    if n >= 10 {
        proof {
            assert(n / 10 < n) by (nonlinear_arith)
                requires
                    n >= 10,
            ;
        }
        push_decimal(n / 10, out);
        out.push(0x30 + (n % 10) as u8);
        assert(final(out)@ =~= old(out)@ + spec_decimal(n as int));
    } else {
        out.push(0x30 + n as u8);
        assert(final(out)@ =~= old(out)@ + spec_decimal(n as int));
    }
}

/// The header of a P6 stream: `P6`, the width and the height in decimal,
/// and the maximum channel value 255, all space-terminated.
pub open spec fn spec_p6_header(width: int, height: int) -> Seq<u8> {
    seq![0x50u8, 0x36u8, 0x20u8] + spec_decimal(width) + seq![0x20u8] + spec_decimal(height)
        + seq![0x20u8, 0x32u8, 0x35u8, 0x35u8, 0x20u8]
}

/// Produce the P6 header bytes for an image of the given size.
pub fn p6_header(width: u64, height: u64) -> (out: Vec<u8>)
    ensures
        out@ == spec_p6_header(width as int, height as int),
{
    let mut out: Vec<u8> = Vec::new();
    out.push(0x50);
    out.push(0x36);
    out.push(0x20);
    push_decimal(width, &mut out);
    out.push(0x20);
    push_decimal(height, &mut out);
    out.push(0x20);
    out.push(0x32);
    out.push(0x35);
    out.push(0x35);
    out.push(0x20);
    assert(out@ =~= spec_p6_header(width as int, height as int));
    out
}

/// Frame finished pixel bytes as one complete P6 stream: the header for
/// the given size, then the payload unchanged. The payload must hold
/// exactly three bytes per pixel.
pub fn p6_image(width: u64, height: u64, pixels: Vec<u8>) -> (out: Vec<u8>)
    requires
        pixels@.len() == width * height * 3,
    ensures
        out@ == spec_p6_header(width as int, height as int) + pixels@,
{
    let mut out = p6_header(width, height);
    let mut payload = pixels;
    out.append(&mut payload);
    out
}

} // verus!
