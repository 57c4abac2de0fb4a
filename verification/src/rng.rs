//! Bounded uniform randomness.
//!
//! A draw takes two `u32` bounds, treated as an unordered pair, and returns a
//! value in the inclusive range they span. The entropy word comes from the
//! enclave runtime behind a trusted wrapper; everything computed from it is
//! verified. The modulo reduction keeps its small uniformity bias on windows
//! that do not divide 2^32: the receiving protocol depends on the exact
//! formula, not on perfect uniformity.

use vstd::prelude::*;

verus! {

/// The lower of the two bounds, whichever order they are given in.
pub open spec fn lower_bound(min: u32, max: u32) -> u32 {
    if min <= max {
        min
    } else {
        max
    }
}

/// The higher of the two bounds, whichever order they are given in.
pub open spec fn upper_bound(min: u32, max: u32) -> u32 {
    if min <= max {
        max
    } else {
        min
    }
}

/// Number of values in the inclusive range the bounds span.
pub open spec fn window(min: u32, max: u32) -> int {
    upper_bound(min, max) - lower_bound(min, max) + 1
}

/// What a draw computes from one entropy word: the word reduced into the
/// window and shifted to the lower bound.
pub open spec fn draw_of(raw: u32, min: u32, max: u32) -> int {
    lower_bound(min, max) + (raw as int) % window(min, max)
}

/// Reduces one entropy word into the inclusive range spanned by the bounds.
///
/// The bounds are an unordered pair: they are swapped if given high-first.
/// The window `upper - lower + 1` must fit in a `u32`, so the range may not
/// end at `u32::MAX` unless it is a single point.
pub fn draw_from(raw: u32, min: u32, max: u32) -> (v: u32)
    requires
        min == max || upper_bound(min, max) < u32::MAX,
    ensures
        v == draw_of(raw, min, max),
        lower_bound(min, max) <= v <= upper_bound(min, max),
        min == max ==> v == min,
{
    if min == max {
        return min;
    }
    let (lo, hi): (u32, u32) = if min > max {
        (max, min)
    } else {
        (min, max)
    };
    let w: u32 = (hi + 1) - lo;
    (raw % w) + lo
}

/// Relies on `switchboard_common::Gramine::read_rand`, which fills the buffer
/// from the enclave runtime's entropy source, and on `bytemuck::cast_slice`,
/// which reinterprets the four bytes as one machine-order `u32`. Nothing is
/// claimed of the value: every caller treats it as an arbitrary word. If the
/// entropy source fails the process aborts: degraded randomness would break
/// the security of the settlement.
#[verifier::external_body]
fn read_entropy_word() -> u32 {
    let mut bytes: [u8; 4] = [0u8; 4];
    switchboard_common::Gramine::read_rand(&mut bytes).expect("entropy source failed");
    let words: &[u32] = bytemuck::cast_slice(&bytes[..]);
    words[0]
}

/// Draws a value from the inclusive range spanned by the two bounds, reading
/// one word of enclave entropy. Equal bounds are degenerate: the bound comes
/// back and no entropy is consumed. The result is always the entropy word
/// reduced by `draw_of`, so its reachable values are exactly the range.
pub fn draw(min: u32, max: u32) -> (v: u32)
    requires
        min == max || upper_bound(min, max) < u32::MAX,
    ensures
        lower_bound(min, max) <= v <= upper_bound(min, max),
        min == max ==> v == min,
        exists|raw: u32| v == draw_of(raw, min, max),
{
    if min == max {
        let r = min;
        assert(r == draw_of(0, min, max)) by {
            assert((0u32 as int) % 1int == 0);
        };
        return r;
    }
    let raw = read_entropy_word();
    draw_from(raw, min, max)
}

/// One bounded draw: the normalized bounds and the value drawn between them.
pub struct BoundedDraw {
    pub min: u32,
    pub max: u32,
    pub value: u32,
}

impl BoundedDraw {
    /// The bounds are in order, the value lies between them, and a degenerate
    /// range pins the value to its single point.
    pub open spec fn wf(self) -> bool {
        &&& self.min <= self.value <= self.max
        &&& self.min == self.max ==> self.value == self.min
    }

    /// Draws once between the given bounds, normalizing their order first.
    pub fn new(min: u32, max: u32) -> (d: BoundedDraw)
        requires
            min == max || upper_bound(min, max) < u32::MAX,
        ensures
            d.wf(),
            d.min == lower_bound(min, max),
            d.max == upper_bound(min, max),
            exists|raw: u32| d.value == draw_of(raw, min, max),
    {
        let value = draw(min, max);
        let (lo, hi): (u32, u32) = if min > max {
            (max, min)
        } else {
            (min, max)
        };
        BoundedDraw { min: lo, max: hi, value }
    }
}

/// Swap symmetry: the bounds are an unordered pair. For every entropy word
/// the two orders compute the same value, so the draws agree in bound and,
/// word for word, in distribution.
pub proof fn lemma_draw_swap(raw: u32, min: u32, max: u32)
    ensures
        draw_of(raw, min, max) == draw_of(raw, max, min),
{
}

/// Degenerate range: between equal bounds every entropy word draws the bound
/// itself.
pub proof fn lemma_draw_degenerate(raw: u32, k: u32)
    ensures
        draw_of(raw, k, k) == k,
{
    assert((raw as int) % 1int == 0);
}

/// Range soundness: for bounds already in order, every entropy word reduces
/// to a value inside the inclusive range.
pub proof fn lemma_draw_in_bounds(raw: u32, min: u32, max: u32)
    requires
        min <= max,
    ensures
        min <= draw_of(raw, min, max) <= max,
{
}

} // verus!
