use vstd::prelude::*;

verus! {

/// The bit of the sign.
pub const SIGN_MASK: u32 = 0x8000_0000;

/// Every bit but the sign.
pub const CLEAR_SIGN_MASK: u32 = 0x7fff_ffff;

/// The pattern of positive infinity: all exponent bits set, no fraction bit.
pub const INFINITY_BITS: u32 = 0x7f80_0000;

/// The pattern of negative infinity.
pub const NEG_INFINITY_BITS: u32 = 0xff80_0000;

/// The pattern of the smallest positive value.
pub const TINY_BITS: u32 = 1;

/// The pattern of one.
pub const ONE_BITS: u32 = 0x3f80_0000;

/// The pattern without its sign bit.
pub open spec fn magnitude(bits: u32) -> u32 {
    bits & CLEAR_SIGN_MASK
}

/// Whether the sign bit is set.
pub open spec fn sign_set(bits: u32) -> bool {
    bits & SIGN_MASK != 0
}

/// Whether the pattern is not a number.
pub open spec fn is_nan(bits: u32) -> bool {
    magnitude(bits) > INFINITY_BITS
}

/// Whether the pattern is one of the two infinities.
pub open spec fn is_infinite(bits: u32) -> bool {
    magnitude(bits) == INFINITY_BITS
}

/// Whether the pattern is a number other than an infinity.
pub open spec fn is_finite(bits: u32) -> bool {
    magnitude(bits) < INFINITY_BITS
}

/// Whether the pattern is a number below zero. Negative zero is not.
pub open spec fn is_negative(bits: u32) -> bool {
    sign_set(bits) && !is_nan(bits) && magnitude(bits) != 0
}

/// A colour component may enter an average when it is a finite number that
/// is not below zero.
pub open spec fn component_ok(bits: u32) -> bool {
    is_finite(bits) && !is_negative(bits)
}

/// The place of a number on the number line, counted in representable
/// values from zero: both zeros are at 0, the smallest positive value at 1,
/// positive infinity at `INFINITY_BITS`, and negative values mirror the
/// positive ones. Not meant for patterns that are not numbers.
pub open spec fn rank(bits: u32) -> int {
    if sign_set(bits) {
        -(magnitude(bits) as int)
    } else {
        bits as int
    }
}

/// The least number above the given one; positive infinity and patterns
/// that are not numbers stay as they are.
pub open spec fn spec_next_up(bits: u32) -> u32 {
    if is_nan(bits) || bits == INFINITY_BITS {
        bits
    } else if magnitude(bits) == 0 {
        TINY_BITS
    } else if sign_set(bits) {
        (bits - 1) as u32
    } else {
        (bits + 1) as u32
    }
}

/// Whether a colour component, given by its bits, may enter an average.
pub fn component_is_valid(bits: u32) -> (r: bool)
    ensures
        r == component_ok(bits),
{
    let abs: u32 = bits & CLEAR_SIGN_MASK;
    let negative: bool = bits & SIGN_MASK != 0 && abs != 0;
    abs < INFINITY_BITS && !negative
}

/// Whether a colour, given by the bits of its three components, may enter an
/// average: no component is below zero, infinite or not a number.
pub fn sample_is_valid(red: u32, green: u32, blue: u32) -> (r: bool)
    ensures
        r == (component_ok(red) && component_ok(green) && component_ok(blue)),
{
    component_is_valid(red) && component_is_valid(green) && component_is_valid(blue)
}

/// The least number above the one with the given bits, by integer work on
/// the bits alone.
#[verifier::when_used_as_spec(spec_next_up)]
pub fn next_up(bits: u32) -> (r: u32)
    ensures
        r == spec_next_up(bits),
{
    let abs: u32 = bits & CLEAR_SIGN_MASK;
    if abs > INFINITY_BITS || bits == INFINITY_BITS {
        return bits;
    }
    if abs == 0 {
        TINY_BITS
    } else if bits == abs {
        assert(bits & SIGN_MASK == 0 && bits < 0x7f80_0000) by (bit_vector)
            requires
                bits == bits & CLEAR_SIGN_MASK,
                bits & CLEAR_SIGN_MASK <= INFINITY_BITS,
                bits != INFINITY_BITS,
        ;
        bits + 1
    } else {
        assert(bits & SIGN_MASK != 0 && bits > 0) by (bit_vector)
            requires
                bits != bits & CLEAR_SIGN_MASK,
        ;
        bits - 1
    }
}

/// For every number but positive infinity, `next_up` moves exactly one
/// representable value up the number line and yields a number again; the
/// other patterns are fixed points.
pub proof fn lemma_next_up_is_successor(bits: u32)
    ensures
        !is_nan(bits) && bits != INFINITY_BITS ==> {
            &&& !is_nan(next_up(bits))
            &&& rank(next_up(bits)) == rank(bits) + 1
        },
        is_nan(bits) || bits == INFINITY_BITS ==> next_up(bits) == bits,
{
    if !is_nan(bits) && bits != INFINITY_BITS {
        let abs = bits & CLEAR_SIGN_MASK;
        if abs == 0 {
            assert(1u32 & SIGN_MASK == 0 && 1u32 & CLEAR_SIGN_MASK == 1) by (bit_vector);
            if sign_set(bits) {
            } else {
                assert(bits == 0) by (bit_vector)
                    requires
                        bits & CLEAR_SIGN_MASK == 0,
                        bits & SIGN_MASK == 0,
                ;
            }
        } else if sign_set(bits) {
            let r = (bits - 1) as u32;
            assert(bits >= 0x8000_0001) by (bit_vector)
                requires
                    bits & SIGN_MASK != 0,
                    bits & CLEAR_SIGN_MASK != 0,
            ;
            assert(r & SIGN_MASK != 0 && (r & CLEAR_SIGN_MASK) + 1 == bits & CLEAR_SIGN_MASK)
                by (bit_vector)
                requires
                    bits >= 0x8000_0001,
                    r == bits - 1,
            ;
        } else {
            let r = (bits + 1) as u32;
            assert(bits == bits & CLEAR_SIGN_MASK) by (bit_vector)
                requires
                    bits & SIGN_MASK == 0,
            ;
            assert(r & SIGN_MASK == 0 && r & CLEAR_SIGN_MASK == r) by (bit_vector)
                requires
                    bits < 0x7f80_0000,
                    r == bits + 1,
            ;
        }
    }
}

/// Whether both patterns are numbers and the first is below the second.
pub open spec fn number_lt(a: u32, b: u32) -> bool {
    !is_nan(a) && !is_nan(b) && rank(a) < rank(b)
}

/// Whether both patterns are numbers and the first is not above the second.
pub open spec fn number_le(a: u32, b: u32) -> bool {
    !is_nan(a) && !is_nan(b) && rank(a) <= rank(b)
}

/// Whether both patterns are numbers of the same value. The two zeros are
/// equal; a pattern that is not a number equals nothing, not even itself.
pub open spec fn number_eq(a: u32, b: u32) -> bool {
    !is_nan(a) && !is_nan(b) && rank(a) == rank(b)
}

/// Whether the pattern is not a number.
pub fn not_a_number(bits: u32) -> (r: bool)
    ensures
        r == is_nan(bits),
{
    bits & CLEAR_SIGN_MASK > INFINITY_BITS
}

/// The place of a number on the number line.
pub fn order_key(bits: u32) -> (r: i64)
    ensures
        r == rank(bits),
{
    let abs: u32 = bits & CLEAR_SIGN_MASK;
    if bits & SIGN_MASK != 0 {
        -(abs as i64)
    } else {
        bits as i64
    }
}

/// Compares two numbers given by their bits: is the first below the second.
pub fn less(a: u32, b: u32) -> (r: bool)
    ensures
        r == number_lt(a, b),
{
    !not_a_number(a) && !not_a_number(b) && order_key(a) < order_key(b)
}

/// Compares two numbers given by their bits: is the first not above the second.
pub fn less_or_equal(a: u32, b: u32) -> (r: bool)
    ensures
        r == number_le(a, b),
{
    !not_a_number(a) && !not_a_number(b) && order_key(a) <= order_key(b)
}

/// Compares two numbers given by their bits: are they of the same value.
pub fn equal(a: u32, b: u32) -> (r: bool)
    ensures
        r == number_eq(a, b),
{
    !not_a_number(a) && !not_a_number(b) && order_key(a) == order_key(b)
}

/// Two numbers have the same value exactly when their bits agree or both
/// are zeros.
pub proof fn lemma_number_eq(a: u32, b: u32)
    ensures
        number_eq(a, b) <==> !is_nan(a) && !is_nan(b) && (a == b || (magnitude(a) == 0
            && magnitude(b) == 0)),
{
    assert(a & CLEAR_SIGN_MASK == b & CLEAR_SIGN_MASK && (a & SIGN_MASK != 0) == (b & SIGN_MASK
        != 0) ==> a == b) by (bit_vector);
    assert(a & SIGN_MASK == 0 ==> a & CLEAR_SIGN_MASK == a) by (bit_vector);
    assert(b & SIGN_MASK == 0 ==> b & CLEAR_SIGN_MASK == b) by (bit_vector);
}

/// The value of `x` held between `low` and `high`: `low` where `x` is
/// below it, `high` where `x` is above it, else `x`. A pattern that is not a
/// number stays as it is.
pub open spec fn spec_clamp(x: u32, low: u32, high: u32) -> u32 {
    if number_lt(x, low) {
        low
    } else if number_lt(high, x) {
        high
    } else {
        x
    }
}

/// Holds a number between two others, which must be numbers in order.
pub fn clamp(x: u32, low: u32, high: u32) -> (r: u32)
    requires
        number_le(low, high),
    ensures
        r == spec_clamp(x, low, high),
{
    if less(x, low) {
        low
    } else if less(high, x) {
        high
    } else {
        x
    }
}

/// One end of an interval of numbers given by their bits.
#[derive(Clone, Copy, Debug, PartialEq, Eq, Structural)]
pub enum Bound {
    Included(u32),
    Excluded(u32),
    Unbounded,
}

/// The half-open form of an interval: the first number inside, and the first
/// number past its end.
pub open spec fn spec_half_open(start: Bound, end: Bound, min: u32, max: u32) -> (u32, u32) {
    (
        match start {
            Bound::Included(s) => s,
            Bound::Excluded(s) => spec_next_up(s),
            Bound::Unbounded => min,
        },
        match end {
            Bound::Included(e) => spec_next_up(e),
            Bound::Excluded(e) => e,
            Bound::Unbounded => max,
        },
    )
}

/// Turns an interval with any kind of ends into a half-open one over the
/// same numbers; a missing end is taken from `min` or `max`.
pub fn range_from_range_bounds(start: Bound, end: Bound, min: u32, max: u32) -> (r: (u32, u32))
    ensures
        r == spec_half_open(start, end, min, max),
{
    let s: u32 = match start {
        Bound::Included(s) => s,
        Bound::Excluded(s) => next_up(s),
        Bound::Unbounded => min,
    };
    let e: u32 = match end {
        Bound::Included(e) => next_up(e),
        Bound::Excluded(e) => e,
        Bound::Unbounded => max,
    };
    (s, e)
}

} // verus!
