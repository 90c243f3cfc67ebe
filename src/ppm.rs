use vstd::prelude::*;
use vstd::string::StringExecFns;

use crate::image::Image;

verus! {

/// A pixel quantised to one byte per channel.
#[derive(Clone, Copy, Debug, PartialEq, Eq)]
pub struct Rgb8 {
    pub red: u8,
    pub green: u8,
    pub blue: u8,
}

impl Default for Rgb8 {
    /// Black.
    fn default() -> (r: Self)
        ensures
            r == (Rgb8 { red: 0, green: 0, blue: 0 }),
    {
        Rgb8 { red: 0, green: 0, blue: 0 }
    }
}

/// The character of the decimal digit `d`.
pub open spec fn digit_char(d: int) -> char {
    seq!['0', '1', '2', '3', '4', '5', '6', '7', '8', '9'][d]
}

/// Decimal notation of `n`, without leading zeros.
pub open spec fn decimal(n: nat) -> Seq<char>
    decreases n,
{
    if n < 10 {
        seq![digit_char(n as int)]
    } else {
        decimal(n / 10) + seq![digit_char((n % 10) as int)]
    }
}

/// The three channels of a pixel in decimal, separated by single spaces.
pub open spec fn pixel_text(p: Rgb8) -> Seq<char> {
    decimal(p.red as nat) + seq![' '] + decimal(p.green as nat) + seq![' '] + decimal(
        p.blue as nat,
    )
}

/// The text of each pixel in turn, joined by line breaks.
pub open spec fn pixel_lines(ps: Seq<Rgb8>) -> Seq<char>
    decreases ps.len(),
{
    if ps.len() == 0 {
        Seq::empty()
    } else if ps.len() == 1 {
        pixel_text(ps[0])
    } else {
        pixel_lines(ps.drop_last()) + seq!['\n'] + pixel_text(ps.last())
    }
}

/// Plain-text PPM: the `P3` tag, the dimensions, the channel maximum 255 and
/// then one line per pixel.
pub open spec fn ppm_text(width: nat, height: nat, ps: Seq<Rgb8>) -> Seq<char> {
    seq!['P', '3', '\n'] + decimal(width) + seq![' '] + decimal(height) + seq![
        '\n',
        '2',
        '5',
        '5',
        '\n',
    ] + pixel_lines(ps)
}

fn digit_text(d: usize) -> (r: &'static str)
    requires
        d < 10,
    ensures
        r@ == seq![digit_char(d as int)],
{
    proof {
        reveal_strlit("0");
        reveal_strlit("1");
        reveal_strlit("2");
        reveal_strlit("3");
        reveal_strlit("4");
        reveal_strlit("5");
        reveal_strlit("6");
        reveal_strlit("7");
        reveal_strlit("8");
        reveal_strlit("9");
    }
    match d {
        0 => "0",
        1 => "1",
        2 => "2",
        3 => "3",
        4 => "4",
        5 => "5",
        6 => "6",
        7 => "7",
        8 => "8",
        _ => "9",
    }
}

fn push_decimal(s: &mut String, n: usize)
    ensures
        final(s)@ == old(s)@ + decimal(n as nat),
    decreases n,
{
    if n >= 10 {
        push_decimal(s, n / 10);
    }
    s.append(digit_text(n % 10));
    assert(final(s)@ =~= old(s)@ + decimal(n as nat));
}

/// The channels of `pixel` in decimal, separated by single spaces.
pub fn format_pixel(pixel: &Rgb8) -> (r: String)
    ensures
        r@ == pixel_text(*pixel),
{
    let mut s = String::new();
    push_decimal(&mut s, pixel.red as usize);
    s.append(" ");
    push_decimal(&mut s, pixel.green as usize);
    s.append(" ");
    push_decimal(&mut s, pixel.blue as usize);
    proof {
        reveal_strlit(" ");
    }
    assert(s@ =~= pixel_text(*pixel));
    s
}

/// The image as plain-text PPM.
#[must_use]
pub fn image_to_ppm(image: &Image<Rgb8>) -> (r: String)
    ensures
        r@ == ppm_text(image@.width, image@.height, image@.pixels),
{
    let (width, height) = image.get_dimensions();
    let pixels = image.get_pixels();
    let mut s = String::new();
    s.append("P3\n");
    push_decimal(&mut s, width);
    s.append(" ");
    push_decimal(&mut s, height);
    s.append("\n255\n");
    proof {
        reveal_strlit("P3\n");
        reveal_strlit(" ");
        reveal_strlit("\n255\n");
        reveal_strlit("\n");
    }
    let ghost header = s@;
    assert(header + pixel_lines(pixels@.take(0)) =~= header);
    let mut i: usize = 0;
    while i < pixels.len()
        invariant
            i <= pixels@.len(),
            pixels@ == image@.pixels,
            header == ppm_text(width as nat, height as nat, Seq::empty()),
            s@ == header + pixel_lines(pixels@.take(i as int)),
        decreases pixels@.len() - i,
    {
        let ghost before = s@;
        if i > 0 {
            s.append("\n");
        }
        let line = format_pixel(&pixels[i]);
        s.append(line.as_str());
        proof {
            reveal_strlit("\n");
            let next = pixels@.take(i + 1);
            assert(next.drop_last() =~= pixels@.take(i as int));
            if i == 0 {
                assert(s@ =~= before + line@);
            } else {
                assert(s@ =~= before + seq!['\n'] + line@);
            }
            assert(s@ =~= header + pixel_lines(next));
        }
        i = i + 1;
    }
    assert(pixels@.take(pixels@.len() as int) =~= pixels@);
    assert(s@ =~= ppm_text(width as nat, height as nat, image@.pixels));
    s
}

} // verus!
