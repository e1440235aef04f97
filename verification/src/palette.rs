use rand::rngs::ThreadRng;
use rand::Rng;
use vstd::prelude::*;

verus! {

/// The random number generator of a thread, `rand::rngs::ThreadRng`.
#[verifier::external_type_specification]
#[verifier::external_body]
pub struct ExThreadRng(rand::rngs::ThreadRng);

/// A 24-bit colour by which a log source is told apart on the terminal.
#[derive(Clone, Copy, Debug, PartialEq, Eq, Structural)]
pub struct Color {
    pub r: u8,
    pub g: u8,
    pub b: u8,
}

/// The number of colours in the palette.
pub const PALETTE_LEN: usize = 8;

/// The fixed palette from which every source colour is drawn.
pub open spec fn palette() -> Seq<Color> {
    seq![
        Color { r: 0, g: 255, b: 0 },
        Color { r: 128, g: 128, b: 0 },
        Color { r: 0, g: 255, b: 255 },
        Color { r: 255, g: 192, b: 203 },
        Color { r: 245, g: 120, b: 250 },
        Color { r: 221, g: 160, b: 221 },
        Color { r: 154, g: 205, b: 50 },
        Color { r: 230, g: 230, b: 120 },
    ]
}

/// The colour is one of the palette.
pub open spec fn in_palette(c: Color) -> bool {
    exists|i: int| 0 <= i < palette().len() && palette()[i] == c
}

/// Calls `rand::thread_rng`, which hands out the calling thread's random
/// number generator. Nothing is claimed of it.
#[verifier::external_body]
fn thread_rng() -> ThreadRng {
    rand::thread_rng()
}

/// Calls `Rng::gen_range` with the bounds `0` and `bound`, which draws from
/// the half-open range below `bound` and panics on an empty range. Only the
/// range of the outcome is claimed: which value comes is left open.
#[verifier::external_body]
fn gen_below(rng: &mut ThreadRng, bound: usize) -> (i: usize)
    requires
        bound > 0,
    ensures
        i < bound,
{
    rng.gen_range(0, bound)
}

fn palette_color(index: usize) -> (c: Color)
    requires
        index < PALETTE_LEN,
    ensures
        c == palette()[index as int],
{
    if index == 0 {
        Color { r: 0, g: 255, b: 0 }
    } else if index == 1 {
        Color { r: 128, g: 128, b: 0 }
    } else if index == 2 {
        Color { r: 0, g: 255, b: 255 }
    } else if index == 3 {
        Color { r: 255, g: 192, b: 203 }
    } else if index == 4 {
        Color { r: 245, g: 120, b: 250 }
    } else if index == 5 {
        Color { r: 221, g: 160, b: 221 }
    } else if index == 6 {
        Color { r: 154, g: 205, b: 50 }
    } else {
        Color { r: 230, g: 230, b: 120 }
    }
}

/// The palette's colour at an index, if the palette reaches that far.
pub fn color_at(index: usize) -> (c: Option<Color>)
    ensures
        c == if index < PALETTE_LEN {
            Some(palette()[index as int])
        } else {
            None
        },
{
    if index < PALETTE_LEN {
        Some(palette_color(index))
    } else {
        None
    }
}

/// Hands out colours for log sources. Each draw is independent of the
/// others, so two sources may get the same colour.
pub struct ColorAssigner {
    rng: ThreadRng,
}

impl ColorAssigner {
    pub fn new() -> (a: ColorAssigner) {
        ColorAssigner { rng: thread_rng() }
    }

    /// Draws an index into the palette.
    pub fn next_index(&mut self) -> (i: usize)
        ensures
            i < PALETTE_LEN,
    {
        gen_below(&mut self.rng, PALETTE_LEN)
    }

    /// Draws a colour from the palette, with replacement.
    pub fn next(&mut self) -> (c: Color)
        ensures
            in_palette(c),
    {
        let i: usize = self.next_index();
        palette_color(i)
    }
}

/// Draws one colour from the palette with the calling thread's random
/// number generator.
pub fn get_color() -> (c: Color)
    ensures
        in_palette(c),
{
    let mut assigner = ColorAssigner::new();
    assigner.next()
}

} // verus!
