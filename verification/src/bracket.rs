//! The functions and constants of `bracket_lib` that the engine relies on.
//!
//! Nothing in this file is proved: each contract restates what the
//! `bracket_lib` sources show, and every proof that uses one rests on it.
use bracket_lib::prelude::RandomNumberGenerator;
use bracket_lib::prelude::VirtualKeyCode;
use vstd::prelude::*;

verus! {

/// The random number generator of `bracket_lib`, carried through as an opaque value.
#[verifier::external_type_specification]
#[verifier::external_body]
pub struct ExRandomNumberGenerator(RandomNumberGenerator);

/// The key identifiers that `bracket_lib` reports. The enum has no fields,
/// so it is declared with its variants in sight: a `match` on a key is then
/// verified like one on an enum of this crate.
#[verifier::external_type_specification]
pub struct ExVirtualKeyCode(VirtualKeyCode);

/// `RandomNumberGenerator::new`: a generator seeded from the operating
/// system's entropy. Nothing is claimed about its state.
#[verifier::external_body]
pub(crate) fn new_generator() -> (generator: RandomNumberGenerator) {
    RandomNumberGenerator::new()
}

/// `RandomNumberGenerator::range` on `i32`: some value that is at least
/// `min` and below `max`. The call panics on an empty range, so `min < max`
/// is required. Which value comes back is left open.
#[verifier::external_body]
pub(crate) fn range_i32(generator: &mut RandomNumberGenerator, min: i32, max: i32) -> (value: i32)
    requires
        min < max,
    ensures
        min <= value < max,
{
    generator.range(min, max)
}

/// `to_cp437`: the code page 437 index of a character. Its table maps `'@'`
/// to 64 and the upward triangle U+25B2 to 30; nothing is claimed of the
/// other characters.
#[verifier::external_body]
pub(crate) fn to_cp437(c: char) -> (glyph: u16)
    ensures
        c == '@' ==> glyph == 64,
        c == '\u{25b2}' ==> glyph == 30,
{
    bracket_lib::prelude::to_cp437(c)
}

/// The constant `GREEN` of `bracket_lib`: full green, no red or blue.
#[verifier::external_body]
pub(crate) fn green() -> (color: (u8, u8, u8))
    ensures
        color == (0u8, 255u8, 0u8),
{
    bracket_lib::prelude::GREEN
}

/// The constant `RED` of `bracket_lib`: full red, no green or blue.
#[verifier::external_body]
pub(crate) fn red() -> (color: (u8, u8, u8))
    ensures
        color == (255u8, 0u8, 0u8),
{
    bracket_lib::prelude::RED
}

} // verus!
