use vstd::prelude::*;
use vstd::arithmetic::div_mod::lemma_fundamental_div_mod;

verus! {

/// One output pixel: red, green and blue channels in `0..=255`.
#[derive(Clone, Copy, Debug, PartialEq, Eq, Structural)]
pub struct Rgb {
    pub r: u8,
    pub g: u8,
    pub b: u8,
}

/// The largest channel value of the text format.
pub const MAX_CHANNEL: u8 = 255;

/// ASCII decimal digits of `n`, most significant first, without leading zeros.
pub open spec fn decimal(n: nat) -> Seq<u8>
    decreases n,
{
    if n < 10 {
        seq![(48 + n) as u8]
    } else {
        decimal(n / 10).push((48 + n % 10) as u8)
    }
}

/// `v` limited to the range of a channel byte.
pub open spec fn clamp_channel(v: int) -> u8 {
    if v < 0 {
        0
    } else if v > 255 {
        255
    } else {
        v as u8
    }
}

/// The first three lines of the text raster: the magic `P3`, the dimensions,
/// and the largest channel value.
pub open spec fn header_text(width: nat, height: nat) -> Seq<u8> {
    seq![80u8, 51u8, 10u8] + decimal(width) + seq![32u8] + decimal(height) + seq![10u8]
        + decimal(255) + seq![10u8]
}

/// The line of one pixel: its three channels in decimal, separated by spaces.
pub open spec fn pixel_text(p: Rgb) -> Seq<u8> {
    decimal(p.r as nat) + seq![32u8] + decimal(p.g as nat) + seq![32u8] + decimal(p.b as nat)
        + seq![10u8]
}

/// The lines of all pixels, one after another in the given order.
pub open spec fn pixels_text(ps: Seq<Rgb>) -> Seq<u8>
    decreases ps.len(),
{
    if ps.len() == 0 {
        Seq::empty()
    } else {
        pixels_text(ps.drop_last()) + pixel_text(ps.last())
    }
}

/// Appends the decimal digits of `n`.
pub fn push_decimal(out: &mut Vec<u8>, n: u64)
    ensures
        final(out)@ == old(out)@ + decimal(n as nat),
    decreases n,
{
    if n >= 10 {
        push_decimal(out, n / 10);
    }
    out.push(48u8 + (n % 10) as u8);
    proof {
        if n < 10 {
            assert(decimal(n as nat) =~= seq![(48 + n) as u8]);
        }
    }
    assert(final(out)@ =~= old(out)@ + decimal(n as nat));
}

/// Turns a scaled channel value, `floor(255.999 * c)` for a channel `c`, into
/// a byte, saturating at both ends of the range.
pub fn channel_byte(scaled: i64) -> (r: u8)
    ensures
        r == clamp_channel(scaled as int),
{
    if scaled < 0 {
        0
    } else if scaled > 255 {
        MAX_CHANNEL
    } else {
        scaled as u8
    }
}

impl Rgb {
    /// The pixel whose channels are the saturated scaled values.
    pub fn from_scaled(r: i64, g: i64, b: i64) -> (p: Rgb)
        ensures
            p.r == clamp_channel(r as int),
            p.g == clamp_channel(g as int),
            p.b == clamp_channel(b as int),
    {
        Rgb { r: channel_byte(r), g: channel_byte(g), b: channel_byte(b) }
    }
}

/// Appends the three header lines.
pub fn push_header(out: &mut Vec<u8>, width: u32, height: u64)
    ensures
        final(out)@ == old(out)@ + header_text(width as nat, height as nat),
{
    out.push(80u8);
    out.push(51u8);
    out.push(10u8);
    push_decimal(out, width as u64);
    out.push(32u8);
    push_decimal(out, height);
    out.push(10u8);
    push_decimal(out, MAX_CHANNEL as u64);
    out.push(10u8);
    assert(final(out)@ =~= old(out)@ + header_text(width as nat, height as nat));
}

/// Appends the line of one pixel.
pub fn push_pixel(out: &mut Vec<u8>, p: Rgb)
    ensures
        final(out)@ == old(out)@ + pixel_text(p),
{
    push_decimal(out, p.r as u64);
    out.push(32u8);
    push_decimal(out, p.g as u64);
    out.push(32u8);
    push_decimal(out, p.b as u64);
    out.push(10u8);
    assert(final(out)@ =~= old(out)@ + pixel_text(p));
}

/// The header of an image `width` by `height` pixels.
pub fn header(width: u32, height: u64) -> (r: Vec<u8>)
    ensures
        r@ == header_text(width as nat, height as nat),
{
    let mut out: Vec<u8> = Vec::new();
    push_header(&mut out, width, height);
    assert(out@ =~= header_text(width as nat, height as nat));
    out
}

/// The whole text raster: the header, then one line per pixel with the
/// pixels in row-major order, top row first.
pub fn encode(width: u32, height: u64, pixels: &Vec<Rgb>) -> (r: Vec<u8>)
    requires
        pixels@.len() == width as int * height as int,
    ensures
        r@ == header_text(width as nat, height as nat) + pixels_text(pixels@),
{
    let mut out = header(width, height);
    let mut k: usize = 0;
    while k < pixels.len()
        invariant
            k <= pixels@.len(),
            out@ == header_text(width as nat, height as nat) + pixels_text(pixels@.take(k as int)),
        decreases pixels@.len() - k,
    {
        push_pixel(&mut out, pixels[k]);
        assert(pixels@.take(k as int + 1).drop_last() =~= pixels@.take(k as int));
        assert(out@ =~= header_text(width as nat, height as nat) + pixels_text(pixels@.take(k as int + 1)));
        k = k + 1;
    }
    assert(pixels@.take(k as int) =~= pixels@);
    out
}

/// Column and row of the pixel that stands at position `k` of the output
/// order: rows top to bottom, each row left to right.
pub fn pixel_position(k: u64, width: u32) -> (r: (u32, u64))
    requires
        width > 0,
    ensures
        r.0 as int == k as int % width as int,
        r.1 as int == k as int / width as int,
        r.0 < width,
        k as int == r.1 as int * width as int + r.0 as int,
{
    let w: u64 = width as u64;
    proof {
        lemma_fundamental_div_mod(k as int, w as int);
        assert(w as int * (k as int / w as int) == (k as int / w as int) * w as int)
            by (nonlinear_arith);
    }
    ((k % w) as u32, k / w)
}

} // verus!
