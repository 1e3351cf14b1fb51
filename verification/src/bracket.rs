//! The few pieces of `bracket_lib` that the game rules lean on: its random
//! number generator and its code page 437 glyph table. Nothing in this file is
//! proved; each item states what is taken on trust from that crate.

use bracket_lib::prelude::FontCharType;
use bracket_lib::prelude::RandomNumberGenerator;
use vstd::prelude::*;

verus! {

/// `bracket_lib`'s random number generator, carried around as an opaque value.
#[verifier::external_type_specification]
#[verifier::external_body]
pub struct ExRandomNumberGenerator(bracket_lib::prelude::RandomNumberGenerator);

/// `RandomNumberGenerator::new` builds a generator from a seed that it takes
/// from the operating system, or from the clock where the system gives none.
/// Nothing is claimed about the generator it returns.
pub assume_specification[ bracket_lib::prelude::RandomNumberGenerator::new ]() -> (rng:
    RandomNumberGenerator);

/// The glyph index that `to_cp437` gives for a character. The function is a
/// fixed table from characters to code page 437 indices, so its result depends
/// on the character alone.
pub uninterp spec fn cp437(c: char) -> u16;

/// `to_cp437` looks a character up in `bracket_lib`'s code page 437 table. The
/// contract only names the outcome; it says nothing about which index a given
/// character has.
pub assume_specification[ bracket_lib::prelude::to_cp437 ](c: char) -> (glyph: FontCharType)
    ensures
        glyph == cp437(c),
;

/// Draws an integer with `RandomNumberGenerator::range`, which samples the
/// half-open range from `min` up to but not including `max`. The underlying
/// sampler panics on an empty range, hence the precondition. The contract
/// claims only that the draw lies in the range, whatever the generator's
/// state.
#[verifier::external_body]
pub(crate) fn draw(rng: &mut RandomNumberGenerator, min: i32, max: i32) -> (r: i32)
    requires
        min < max,
    ensures
        min <= r < max,
{
    rng.range(min, max)
}

} // verus!
