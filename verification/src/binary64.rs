//! Reading the bit pattern of a 64-bit IEEE-754 number: one sign bit, eleven
//! exponent bits, fifty-two fraction bits.
//!
//! A pattern is read by plain arithmetic on the 64-bit integer that holds
//! it. The lemmas tie that reading to the three fields, and to the number
//! that the pattern stands for.

use vstd::arithmetic::power2::lemma2_to64_rest;
use vstd::arithmetic::power2::lemma_pow2_adds;
use vstd::arithmetic::power2::lemma_pow2_pos;
use vstd::arithmetic::power2::lemma_pow2_strictly_increases;
use vstd::arithmetic::power2::lemma_pow2_unfold;
use vstd::arithmetic::power2::pow2;
use vstd::prelude::*;

verus! {

/// The sign bit of a pattern, alone.
pub const SIGN_BIT: u64 = 0x8000_0000_0000_0000;

/// The pattern of positive infinity: every exponent bit, no fraction bit.
pub const INFINITY_BITS: u64 = 0x7ff0_0000_0000_0000;

/// The pattern of negative infinity.
pub const NEG_INFINITY_BITS: u64 = 0xfff0_0000_0000_0000;

/// The pattern of 1.0.
pub const ONE_BITS: u64 = 0x3ff0_0000_0000_0000;

/// The pattern of -1.0.
pub const NEG_ONE_BITS: u64 = 0xbff0_0000_0000_0000;

/// The least pattern with an exponent bit set: two to the fifty-second,
/// which is also what the fraction of a normal number is counted on top of.
pub const HIDDEN_BIT: u64 = 0x0010_0000_0000_0000;

/// Is the sign bit of the pattern set?
pub open spec fn is_negative_bits(bits: u64) -> bool {
    bits >= SIGN_BIT
}

/// The pattern without its sign bit: exponent and fraction.
pub open spec fn magnitude_bits(bits: u64) -> u64 {
    if bits >= SIGN_BIT {
        (bits - SIGN_BIT) as u64
    } else {
        bits
    }
}

/// Is the pattern a NaN: every exponent bit set, and some fraction bit?
pub open spec fn is_nan_bits(bits: u64) -> bool {
    magnitude_bits(bits) > INFINITY_BITS
}

/// Is the pattern one of the two zeros?
pub open spec fn is_zero_bits(bits: u64) -> bool {
    magnitude_bits(bits) == 0
}

/// Is the pattern a number other than zero: what an
/// [`NzFloat`](crate::nzfloat::NzFloat) can hold?
pub open spec fn is_nonzero_number(bits: u64) -> bool {
    !is_nan_bits(bits) && !is_zero_bits(bits)
}

/// The place of a pattern in the total order: patterns with the sign bit
/// clear stand by their magnitude, and those with it set stand below all of
/// them, the greater magnitude the lower.
pub open spec fn order_key(bits: u64) -> int {
    if is_negative_bits(bits) {
        -magnitude_bits(bits) - 1
    } else {
        magnitude_bits(bits) as int
    }
}

/// The exponent field of a pattern.
pub open spec fn exponent_field(bits: u64) -> nat {
    (magnitude_bits(bits) / HIDDEN_BIT) as nat
}

/// The fraction field of a pattern.
pub open spec fn fraction_field(bits: u64) -> nat {
    (magnitude_bits(bits) % HIDDEN_BIT) as nat
}

/// The size of the number that a pattern stands for, counted in the least
/// positive number, two to the minus 1074: exact for every finite pattern.
/// With an exponent field of zero the fraction counts alone; otherwise the
/// fraction, on top of two to the fifty-second, is doubled once for each
/// step of the exponent above one. The pattern of infinity gets a size above
/// that of every finite pattern.
pub open spec fn scaled_magnitude(bits: u64) -> int {
    if exponent_field(bits) == 0 {
        fraction_field(bits) as int
    } else {
        (HIDDEN_BIT + fraction_field(bits)) * pow2((exponent_field(bits) - 1) as nat)
    }
}

/// The number that a pattern stands for, counted in the least positive
/// number.
pub open spec fn scaled_value(bits: u64) -> int {
    if is_negative_bits(bits) {
        -scaled_magnitude(bits)
    } else {
        scaled_magnitude(bits)
    }
}

/// The arithmetic reading of a pattern agrees with its three fields: the
/// sign is the top bit, the magnitude is the other sixty-three, a NaN has
/// every exponent bit set and some fraction bit, and a zero has none of
/// either.
pub proof fn lemma_fields(bits: u64)
    ensures
        is_negative_bits(bits) <==> bits >> 63 == 1,
        magnitude_bits(bits) == bits & 0x7fff_ffff_ffff_ffff,
        is_nan_bits(bits) <==> (bits >> 52) & 0x7ff == 0x7ff && bits & 0x000f_ffff_ffff_ffff != 0,
        is_zero_bits(bits) <==> (bits >> 52) & 0x7ff == 0 && bits & 0x000f_ffff_ffff_ffff == 0,
{
    assert(bits >= 0x8000_0000_0000_0000 <==> bits >> 63 == 1) by (bit_vector);
    assert(bits >= 0x8000_0000_0000_0000 ==> bits - 0x8000_0000_0000_0000 == bits
        & 0x7fff_ffff_ffff_ffff) by (bit_vector);
    assert(bits < 0x8000_0000_0000_0000 ==> bits == bits & 0x7fff_ffff_ffff_ffff)
        by (bit_vector);
    assert(bits & 0x7fff_ffff_ffff_ffff > 0x7ff0_0000_0000_0000 <==> (bits >> 52) & 0x7ff == 0x7ff
        && bits & 0x000f_ffff_ffff_ffff != 0) by (bit_vector);
    assert(bits & 0x7fff_ffff_ffff_ffff == 0 <==> (bits >> 52) & 0x7ff == 0 && bits
        & 0x000f_ffff_ffff_ffff == 0) by (bit_vector);
}

/// The place of a pattern in the order is the pattern read as a signed
/// integer, with the sixty-three magnitude bits inverted where the sign bit
/// is set.
pub proof fn lemma_order_key_by_bits(bits: u64)
    ensures
        order_key(bits) == (bits as i64) ^ ((((bits as i64) >> 63) as u64) >> 1) as i64,
{
    let key: i64 = (bits as i64) ^ ((((bits as i64) >> 63) as u64) >> 1) as i64;
    assert(bits < 0x8000_0000_0000_0000 ==> key == bits) by (bit_vector)
        requires
            key == (bits as i64) ^ ((((bits as i64) >> 63) as u64) >> 1) as i64,
    ;
    assert(bits >= 0x8000_0000_0000_0000 ==> key == -(bits - 0x8000_0000_0000_0000) - 1)
        by (bit_vector)
        requires
            key == (bits as i64) ^ ((((bits as i64) >> 63) as u64) >> 1) as i64,
    ;
}

/// A greater magnitude stands for a greater size.
pub proof fn lemma_scaled_magnitude_rises(a: u64, b: u64)
    requires
        magnitude_bits(a) < magnitude_bits(b),
    ensures
        scaled_magnitude(a) < scaled_magnitude(b),
{
    let ea = exponent_field(a);
    let fa = fraction_field(a);
    let eb = exponent_field(b);
    let fb = fraction_field(b);
    if ea == eb {
        if ea > 0 {
            let p = pow2((ea - 1) as nat);
            lemma_pow2_pos((ea - 1) as nat);
            assert((HIDDEN_BIT + fa) * p < (HIDDEN_BIT + fb) * p) by (nonlinear_arith)
                requires
                    fa < fb,
                    p > 0,
            ;
        }
    } else {
        let pb = pow2((eb - 1) as nat);
        lemma_pow2_pos((eb - 1) as nat);
        assert((HIDDEN_BIT + fb) * pb >= HIDDEN_BIT * pb >= HIDDEN_BIT) by (nonlinear_arith)
            requires
                pb > 0,
        ;
        if ea > 0 {
            let pa = pow2((ea - 1) as nat);
            lemma_pow2_pos((ea - 1) as nat);
            lemma_pow2_unfold(ea);
            if ea < eb - 1 {
                lemma_pow2_strictly_increases(ea, (eb - 1) as nat);
            }
            assert((HIDDEN_BIT + fa) * pa < HIDDEN_BIT * pb) by (nonlinear_arith)
                requires
                    fa < HIDDEN_BIT,
                    pa > 0,
                    2 * pa <= pb,
            ;
        }
    }
}

/// The two zeros, and no other pattern, stand for the number zero.
pub proof fn lemma_scaled_value_of_zero(bits: u64)
    ensures
        scaled_value(bits) == 0 <==> is_zero_bits(bits),
{
    if !is_zero_bits(bits) {
        lemma_scaled_magnitude_rises(0, bits);
    }
}

/// Away from the zeros, a pattern stands before another in the order exactly
/// when it stands for the lesser number, and two patterns are the same
/// exactly when they stand for the same number.
pub proof fn lemma_order_key_is_numeric(a: u64, b: u64)
    requires
        !is_zero_bits(a),
        !is_zero_bits(b),
    ensures
        order_key(a) < order_key(b) <==> scaled_value(a) < scaled_value(b),
        a == b <==> scaled_value(a) == scaled_value(b),
{
    lemma_scaled_value_of_zero(a);
    lemma_scaled_value_of_zero(b);
    if magnitude_bits(a) < magnitude_bits(b) {
        lemma_scaled_magnitude_rises(a, b);
    }
    if magnitude_bits(b) < magnitude_bits(a) {
        lemma_scaled_magnitude_rises(b, a);
    }
}

/// Clearing the sign bit leaves the size as it is, so the pattern then stands
/// for the absolute value.
pub proof fn lemma_scaled_value_of_magnitude(bits: u64)
    ensures
        scaled_value(magnitude_bits(bits)) == scaled_magnitude(bits),
        scaled_value(bits) >= 0 ==> scaled_magnitude(bits) == scaled_value(bits),
        scaled_value(bits) < 0 ==> scaled_magnitude(bits) == -scaled_value(bits),
{
    if !is_zero_bits(bits) {
        lemma_scaled_magnitude_rises(0, bits);
    }
}

/// The patterns named for 1.0 and -1.0 stand for the numbers one and minus
/// one, which count two to the 1074th of the least positive number.
pub proof fn lemma_scaled_value_of_one()
    ensures
        scaled_value(ONE_BITS) == pow2(1074),
        scaled_value(NEG_ONE_BITS) == -pow2(1074),
{
    lemma2_to64_rest();
    lemma_pow2_adds(52, 1022);
    assert(exponent_field(ONE_BITS) == 1023 && fraction_field(ONE_BITS) == 0);
    assert(exponent_field(NEG_ONE_BITS) == 1023 && fraction_field(NEG_ONE_BITS) == 0);
}

} // verus!
