use vstd::prelude::*;
use crate::screen::{Pixel, Screen};

verus! {

/// ASCII code of the digit `0`.
pub const DIGIT_ZERO: u8 = 48;

/// ASCII code of a space.
pub const SPACE: u8 = 32;

/// ASCII code of a line feed.
pub const NEWLINE: u8 = 10;

/// ASCII code of `P`.
pub const LETTER_P: u8 = 80;

/// The decimal digits of `n`, most significant first, without leading zeros.
pub open spec fn decimal(n: nat) -> Seq<u8>
    decreases n,
{
    if n < 10 {
        seq![(DIGIT_ZERO + n) as u8]
    } else {
        decimal(n / 10) + seq![(DIGIT_ZERO + n % 10) as u8]
    }
}

/// The header line `P3`, then the width and height, then the largest channel
/// value `255`, each on a line of its own.
pub open spec fn ppm_header(width: nat, height: nat) -> Seq<u8> {
    seq![LETTER_P, (DIGIT_ZERO + 3) as u8, NEWLINE] + decimal(width) + seq![SPACE] + decimal(
        height,
    ) + seq![NEWLINE] + decimal(255) + seq![NEWLINE]
}

/// One pixel as the line `R G B`.
pub open spec fn ppm_pixel(p: Pixel) -> Seq<u8> {
    decimal(p.0 as nat) + seq![SPACE] + decimal(p.1 as nat) + seq![SPACE] + decimal(p.2 as nat)
        + seq![NEWLINE]
}

/// The pixel lines of `pixels`, in order.
pub open spec fn ppm_pixels(pixels: Seq<Pixel>) -> Seq<u8>
    decreases pixels.len(),
{
    if pixels.len() == 0 {
        seq![]
    } else {
        ppm_pixels(pixels.drop_last()) + ppm_pixel(pixels.last())
    }
}

/// The whole plain-text image: header, then one line per pixel in row-major
/// order.
pub open spec fn ppm_image(width: nat, height: nat, pixels: Seq<Pixel>) -> Seq<u8> {
    ppm_header(width, height) + ppm_pixels(pixels)
}

/// Appends the decimal digits of `n`.
fn push_decimal(out: &mut Vec<u8>, n: u32)
    ensures
        final(out)@ == old(out)@ + decimal(n as nat),
    decreases n,
{
    if n >= 10 {
        push_decimal(out, n / 10);
    }
    let digit: u8 = (n % 10) as u8;
    out.push(DIGIT_ZERO + digit);
    assert(out@ =~= old(out)@ + decimal(n as nat));
}

/// Appends the line of one pixel.
fn push_pixel(out: &mut Vec<u8>, p: Pixel)
    ensures
        final(out)@ == old(out)@ + ppm_pixel(p),
{
    push_decimal(out, p.0 as u32);
    out.push(SPACE);
    push_decimal(out, p.1 as u32);
    out.push(SPACE);
    push_decimal(out, p.2 as u32);
    out.push(NEWLINE);
    assert(final(out)@ =~= old(out)@ + ppm_pixel(p));
}

/// Encodes the image as plain-text PPM (`P3`): the header with the width,
/// the height and the channel maximum 255, then one `R G B` line per pixel
/// in row-major order.
pub fn encode_ppm(screen: &Screen) -> (r: Vec<u8>)
    ensures
        r@ == ppm_image(screen.width as nat, screen.height as nat, screen.buffer@),
{
    let mut out: Vec<u8> = Vec::new();
    out.push(LETTER_P);
    out.push(DIGIT_ZERO + 3);
    out.push(NEWLINE);
    push_decimal(&mut out, screen.width);
    out.push(SPACE);
    push_decimal(&mut out, screen.height);
    out.push(NEWLINE);
    push_decimal(&mut out, 255);
    out.push(NEWLINE);
    let ghost header = out@;
    assert(header =~= ppm_header(screen.width as nat, screen.height as nat));
    let mut i: usize = 0;
    while i < screen.buffer.len()
        invariant
            i <= screen.buffer@.len(),
            out@ == header + ppm_pixels(screen.buffer@.subrange(0, i as int)),
        decreases screen.buffer@.len() - i,
    {
        let ghost before = out@;
        push_pixel(&mut out, screen.buffer[i]);
        proof {
            let done = screen.buffer@.subrange(0, i as int + 1);
            assert(done.drop_last() =~= screen.buffer@.subrange(0, i as int));
            assert(out@ =~= header + ppm_pixels(done));
        }
        i = i + 1;
    }
    assert(screen.buffer@.subrange(0, i as int) =~= screen.buffer@);
    out
}

} // verus!
