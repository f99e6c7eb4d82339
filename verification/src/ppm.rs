//! The plain-text image format: a `P3` header line, the image size, the
//! maximum channel value `255`, then one line per pixel (row-major, top
//! row first, left to right) of three space-separated decimal channels.

use vstd::prelude::*;

use crate::decimal::{decimal_digits, decimal_string};

verus! {

/// One pixel of the finished image: red, green and blue channels,
/// each already scaled to `0..=255`.
#[derive(Clone, Copy, PartialEq, Eq, Structural, Debug)]
pub struct Pixel {
    pub r: u8,
    pub g: u8,
    pub b: u8,
}

/// The text of one pixel line, without its trailing line break: the three
/// channels in decimal, separated by single spaces.
pub open spec fn triple_of(p: Pixel) -> Seq<char> {
    decimal_digits(p.r as nat) + seq![' '] + decimal_digits(p.g as nat) + seq![' ']
        + decimal_digits(p.b as nat)
}

/// The header of an image of the given size: the magic line `P3`, the
/// width and height, and the maximum channel value `255`.
pub open spec fn header_of(width: nat, height: nat) -> Seq<char> {
    seq!['P', '3', '\n'] + decimal_digits(width) + seq![' '] + decimal_digits(height)
        + seq!['\n', '2', '5', '5', '\n']
}

/// The image body: one line per pixel, in the order given.
pub open spec fn lines_of(pixels: Seq<Pixel>) -> Seq<char>
    decreases pixels.len(),
{
    if pixels.len() == 0 {
        Seq::empty()
    } else {
        triple_of(pixels[0]) + seq!['\n'] + lines_of(pixels.drop_first())
    }
}

/// The whole image text: the header, then the pixels in the order given.
pub open spec fn image_of(width: nat, height: nat, pixels: Seq<Pixel>) -> Seq<char> {
    header_of(width, height) + lines_of(pixels)
}

/// Renders the line for one pixel, without its trailing line break.
pub fn color_triple(p: Pixel) -> (s: String)
    ensures
        s@ == triple_of(p),
{
    let mut s = decimal_string(p.r as u64);
    s.append(" ");
    let g = decimal_string(p.g as u64);
    s.append(g.as_str());
    s.append(" ");
    let b = decimal_string(p.b as u64);
    s.append(b.as_str());
    proof {
        reveal_strlit(" ");
        assert(s@ =~= triple_of(p));
    }
    s
}

/// Renders the header for an image of the given size.
pub fn ppm_header(width: u64, height: u64) -> (s: String)
    ensures
        s@ == header_of(width as nat, height as nat),
{
    let mut s = String::from_str("P3\n");
    let w = decimal_string(width);
    s.append(w.as_str());
    s.append(" ");
    let h = decimal_string(height);
    s.append(h.as_str());
    s.append("\n255\n");
    proof {
        reveal_strlit("P3\n");
        reveal_strlit(" ");
        reveal_strlit("\n255\n");
        assert(s@ =~= header_of(width as nat, height as nat));
    }
    s
}

/// Appending a pixel to the body appends exactly its line.
proof fn lemma_lines_of_push(pixels: Seq<Pixel>, p: Pixel)
    ensures
        lines_of(pixels.push(p)) == lines_of(pixels) + triple_of(p) + seq!['\n'],
    decreases pixels.len(),
{
    if pixels.len() == 0 {
        assert(pixels.push(p)[0] == p);
        assert(pixels.push(p).drop_first() =~= Seq::<Pixel>::empty());
        assert(lines_of(Seq::<Pixel>::empty()) == Seq::<char>::empty());
        assert(lines_of(pixels.push(p)) =~= lines_of(pixels) + triple_of(p) + seq!['\n']);
    } else {
        lemma_lines_of_push(pixels.drop_first(), p);
        assert(pixels.push(p).drop_first() =~= pixels.drop_first().push(p));
        assert(lines_of(pixels.push(p)) =~= lines_of(pixels) + triple_of(p) + seq!['\n']);
    }
}

/// Renders the whole image: the header, then one line per pixel in the
/// order given (row-major, top row first, left to right).
pub fn ppm_image(width: u64, height: u64, pixels: &Vec<Pixel>) -> (s: String)
    requires
        pixels@.len() == width * height,
    ensures
        s@ == image_of(width as nat, height as nat, pixels@),
{
    let mut s = ppm_header(width, height);
    proof {
        assert(pixels@.subrange(0, 0) =~= Seq::<Pixel>::empty());
        assert(s@ =~= header_of(width as nat, height as nat) + lines_of(
            pixels@.subrange(0, 0),
        ));
    }
    let mut i: usize = 0;
    while i < pixels.len()
        invariant
            i <= pixels@.len(),
            s@ == header_of(width as nat, height as nat) + lines_of(
                pixels@.subrange(0, i as int),
            ),
        decreases pixels@.len() - i,
    {
        let line = color_triple(pixels[i]);
        s.append(line.as_str());
        s.append("\n");
        proof {
            reveal_strlit("\n");
            let prefix = pixels@.subrange(0, i as int);
            lemma_lines_of_push(prefix, pixels@[i as int]);
            assert(pixels@.subrange(0, i as int + 1) =~= prefix.push(pixels@[i as int]));
            assert(s@ =~= header_of(width as nat, height as nat) + lines_of(
                pixels@.subrange(0, i as int + 1),
            ));
        }
        i = i + 1;
    }
    proof {
        assert(pixels@.subrange(0, pixels@.len() as int) =~= pixels@);
    }
    s
}

} // verus!
