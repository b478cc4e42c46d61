//! Pixels, color modes and quantization to the 6x6x6 color cube.

use vstd::prelude::*;

verus! {

/// One pixel: red, green and blue, each 0 to 255.
#[derive(Clone, Copy, Debug, PartialEq, Eq, Structural)]
pub struct Rgb {
    pub r: u8,
    pub g: u8,
    pub b: u8,
}

/// How a cell's two colors are written to the terminal.
#[derive(Clone, Copy, Debug, PartialEq, Eq, Structural)]
pub enum ColorMode {
    /// Direct 24-bit colors, bit-exact.
    Truecolor,
    /// Indices 16 to 231 of the 256-color palette.
    Palette256,
}

impl ColorMode {
    /// The mode that the `truecolor` switch selects: the palette unless it is set.
    pub fn from_flag(truecolor: bool) -> (mode: ColorMode)
        ensures
            mode == (if truecolor { ColorMode::Truecolor } else { ColorMode::Palette256 }),
    {
        if truecolor {
            ColorMode::Truecolor
        } else {
            ColorMode::Palette256
        }
    }
}

/// The cube level of a channel value: `c * 5 / 255`, rounded to the nearest integer.
pub open spec fn level(c: nat) -> nat {
    (c * 5 + 127) / 255
}

/// The channel value that a cube level stands for.
pub open spec fn level_value(l: nat) -> nat {
    51 * l
}

/// The palette index of a color: 16 plus its three levels read as a base-6 number.
pub open spec fn cube_index(r: nat, g: nat, b: nat) -> nat {
    16 + 36 * level(r) + 6 * level(g) + level(b)
}

/// The color that a cube index stands for: each base-6 digit of `index - 16`
/// taken back to its channel value.
pub open spec fn cube_representative(index: nat) -> Rgb
    recommends
        16 <= index <= 231,
{
    let n: nat = (index - 16) as nat;
    Rgb {
        r: level_value(n / 36) as u8,
        g: level_value((n / 6) % 6) as u8,
        b: level_value(n % 6) as u8,
    }
}

/// Converts an 8-bit channel value to its level in the color cube, 0 to 5.
pub fn to_ansi_level(v: u8) -> (l: u8)
    ensures
        l == level(v as nat),
        l <= 5,
{
    let scaled: u16 = v as u16 * 5 + 127;
    (scaled / 255) as u8
}

/// Converts a color to its index in the 256-color palette, inside the color cube.
pub fn rgb_to_256(r: u8, g: u8, b: u8) -> (index: u8)
    ensures
        index == cube_index(r as nat, g as nat, b as nat),
        16 <= index <= 231,
{
    16 + 36 * to_ansi_level(r) + 6 * to_ansi_level(g) + to_ansi_level(b)
}

/// The color that a palette index of the color cube stands for; `None` outside the cube.
pub fn cube_color(index: u8) -> (color: Option<Rgb>)
    ensures
        color == (if 16 <= index <= 231 {
            Some(cube_representative(index as nat))
        } else {
            None
        }),
{
    if index < 16 || index > 231 {
        return None;
    }
    let n: u8 = index - 16;
    Some(Rgb { r: 51 * (n / 36), g: 51 * ((n / 6) % 6), b: 51 * (n % 6) })
}

/// A level is the integer nearest to `c * 5 / 255`: the two differ by less than one half.
pub proof fn lemma_level_is_nearest(c: nat)
    requires
        c <= 255,
    ensures
        level(c) <= 5,
        2 * (5 * c - 255 * level(c)) < 255,
        2 * (255 * level(c) - 5 * c) < 255,
{
}

/// A brighter channel never gets a lower level.
pub proof fn lemma_level_is_monotonic(a: nat, b: nat)
    requires
        a <= b,
    ensures
        level(a) <= level(b),
{
}

/// Every color lands inside the color cube, never in the first sixteen entries
/// nor in the grayscale ramp.
pub proof fn lemma_cube_index_in_cube(r: nat, g: nat, b: nat)
    requires
        r <= 255,
        g <= 255,
        b <= 255,
    ensures
        16 <= cube_index(r, g, b) <= 231,
{
}

/// Each level is the level of the channel value that stands for it.
pub proof fn lemma_level_of_level_value(l: nat)
    requires
        l <= 5,
    ensures
        level_value(l) <= 255,
        level(level_value(l)) == l,
{
}

/// Quantization is idempotent: the color that a cube index stands for is
/// quantized to that same index.
pub proof fn lemma_quantize_representative(index: nat)
    requires
        16 <= index <= 231,
    ensures
        ({
            let c = cube_representative(index);
            cube_index(c.r as nat, c.g as nat, c.b as nat) == index
        }),
{
    let n: nat = (index - 16) as nat;
    let hi: nat = n / 36;
    let mid: nat = (n / 6) % 6;
    let lo: nat = n % 6;
    assert(hi <= 5 && mid <= 5 && lo <= 5);
    assert(n == 36 * hi + 6 * mid + lo);
    lemma_level_of_level_value(hi);
    lemma_level_of_level_value(mid);
    lemma_level_of_level_value(lo);
    let c = cube_representative(index);
    assert(c.r as nat == level_value(hi));
    assert(c.g as nat == level_value(mid));
    assert(c.b as nat == level_value(lo));
}

/// Quantizing twice gives what quantizing once gives: a color and the
/// representative of its index share that index.
pub proof fn lemma_quantize_twice(r: nat, g: nat, b: nat)
    requires
        r <= 255,
        g <= 255,
        b <= 255,
    ensures
        ({
            let c = cube_representative(cube_index(r, g, b));
            cube_index(c.r as nat, c.g as nat, c.b as nat) == cube_index(r, g, b)
        }),
{
    lemma_cube_index_in_cube(r, g, b);
    lemma_quantize_representative(cube_index(r, g, b));
}

} // verus!
