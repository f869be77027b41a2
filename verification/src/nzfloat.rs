//! A 64-bit IEEE-754 number that is never zero and never NaN.
//!
//! A value is held and handed over as its binary64 bit pattern, which
//! [`crate::binary64`] reads. Both infinities belong to the type. Whoever
//! computes with the machine's arithmetic passes the raw bits of each result
//! to [`NzFloat::checked_from_bits`], which admits the result or says why
//! not.

use crate::binary64::is_nan_bits;
use crate::binary64::is_negative_bits;
use crate::binary64::is_nonzero_number;
use crate::binary64::is_zero_bits;
use crate::binary64::lemma_order_key_is_numeric;
use crate::binary64::lemma_scaled_value_of_magnitude;
use crate::binary64::lemma_scaled_value_of_one;
use crate::binary64::lemma_scaled_value_of_zero;
use crate::binary64::magnitude_bits;
use crate::binary64::order_key;
use crate::binary64::scaled_value;
use crate::binary64::INFINITY_BITS;
use crate::binary64::NEG_INFINITY_BITS;
use crate::binary64::NEG_ONE_BITS;
use crate::binary64::ONE_BITS;
use crate::binary64::SIGN_BIT;
use core::cmp::Ordering;
use vstd::arithmetic::power2::pow2;
use vstd::prelude::*;
use vstd::std_specs::cmp::PartialOrdSpecImpl;
use vstd::std_specs::convert::FromSpecImpl;
use vstd::std_specs::convert::TryFromSpecImpl;

verus! {

/// Why a bit pattern is no [`NzFloat`].
#[derive(Debug, Clone, Copy, PartialEq, Eq, Structural)]
pub enum NzfError {
    /// The number is zero, of either sign.
    ZeroResult,
    /// The pattern is no number at all.
    NotANumber,
}

/// What the raw bits of an arithmetic result become: NaN is refused first,
/// then zero, and every other pattern is admitted as it is.
pub open spec fn classify(bits: u64) -> Result<u64, NzfError> {
    if is_nan_bits(bits) {
        Err(NzfError::NotANumber)
    } else if is_zero_bits(bits) {
        Err(NzfError::ZeroResult)
    } else {
        Ok(bits)
    }
}

/// What a conversion makes of a pattern: the pattern itself, or
/// `ZeroResult` for a zero and for a NaN alike.
pub open spec fn conversion_outcome(bits: u64) -> Result<u64, NzfError> {
    if is_nonzero_number(bits) {
        Ok(bits)
    } else {
        Err(NzfError::ZeroResult)
    }
}

/// The pattern of 1.0 with the sign of `bits`.
pub open spec fn signum_bits(bits: u64) -> u64 {
    if is_negative_bits(bits) {
        NEG_ONE_BITS
    } else {
        ONE_BITS
    }
}

/// How pattern `a` stands to pattern `b` in the total order.
pub open spec fn compare_bits(a: u64, b: u64) -> Ordering {
    if order_key(a) < order_key(b) {
        Ordering::Less
    } else if order_key(a) > order_key(b) {
        Ordering::Greater
    } else {
        Ordering::Equal
    }
}

/// The pattern without its sign bit.
fn magnitude(bits: u64) -> (m: u64)
    ensures
        m == magnitude_bits(bits),
{
    if bits >= SIGN_BIT {
        bits - SIGN_BIT
    } else {
        bits
    }
}

/// A 64-bit IEEE-754 number that is neither a zero nor a NaN.
#[derive(Debug, Clone, Copy, PartialEq, Eq, Structural, Hash)]
pub struct NzFloat(u64);

impl NzFloat {
    /// The bit pattern held.
    pub closed spec fn view(self) -> u64 {
        self.0
    }

    /// The value that holds `bits`.
    pub closed spec fn holding(bits: u64) -> NzFloat {
        NzFloat(bits)
    }

    /// Every value holds the pattern of a number other than zero.
    #[verifier::type_invariant]
    pub open spec fn wf(self) -> bool {
        is_nonzero_number(self@)
    }

    /// A result with the value, if any, replaced by the pattern it holds.
    pub open spec fn result_view(r: Result<NzFloat, NzfError>) -> Result<u64, NzfError> {
        match r {
            Ok(v) => Ok(v@),
            Err(e) => Err(e),
        }
    }

    /// Does this value stand before `other` in the total order?
    pub open spec fn precedes(self, other: NzFloat) -> bool {
        compare_bits(self@, other@) == Ordering::Less
    }

    /// A value is known by the pattern it holds.
    pub proof fn lemma_view_determines(a: NzFloat, b: NzFloat)
        ensures
            a@ == b@ <==> a == b,
    {
    }

    /// `holding(bits)` holds `bits`.
    pub proof fn lemma_holding(bits: u64)
        ensures
            Self::holding(bits)@ == bits,
    {
    }

    /// The value holding `bits`, or nothing if they are a zero or a NaN.
    pub fn new(bits: u64) -> (r: Option<NzFloat>)
        ensures
            r is Some <==> is_nonzero_number(bits),
            r is Some ==> r.unwrap()@ == bits,
    {
        let m: u64 = magnitude(bits);
        if m == 0 || m > INFINITY_BITS {
            None
        } else {
            Some(NzFloat(bits))
        }
    }

    /// The value holding `bits`, for bits already known to be a number other
    /// than zero.
    fn new_unchecked(bits: u64) -> (r: NzFloat)
        requires
            is_nonzero_number(bits),
        ensures
            r@ == bits,
    {
        NzFloat(bits)
    }

    /// The bit pattern held.
    pub fn get(self) -> (r: u64)
        ensures
            r == self@,
            is_nonzero_number(r),
    {
        proof {
            use_type_invariant(&self);
        }
        self.0
    }

    /// Admits the raw bits of an arithmetic result: a NaN is refused as
    /// `NotANumber`, a zero of either sign as `ZeroResult`, and any other
    /// pattern becomes the value that holds it.
    pub fn checked_from_bits(bits: u64) -> (r: Result<NzFloat, NzfError>)
        ensures
            Self::result_view(r) == classify(bits),
    {
        let m: u64 = magnitude(bits);
        if m > INFINITY_BITS {
            return Err(NzfError::NotANumber);
        }
        if m == 0 {
            return Err(NzfError::ZeroResult);
        }
        Ok(NzFloat::new_unchecked(bits))
    }

    /// The absolute value: the same pattern with the sign bit clear.
    pub fn abs(self) -> (r: NzFloat)
        ensures
            r@ == magnitude_bits(self@),
    {
        NzFloat::new_unchecked(magnitude(self.get()))
    }

    /// The sign as a number: 1.0 where the sign bit is clear, -1.0 where it
    /// is set.
    pub fn signum(self) -> (r: NzFloat)
        ensures
            r@ == signum_bits(self@),
    {
        if self.get() < SIGN_BIT {
            NzFloat::new_unchecked(ONE_BITS)
        } else {
            NzFloat::new_unchecked(NEG_ONE_BITS)
        }
    }

    /// The value 1.0.
    pub fn one() -> (r: NzFloat)
        ensures
            r@ == ONE_BITS,
    {
        NzFloat::new_unchecked(ONE_BITS)
    }

    /// The value -1.0.
    pub fn neg_one() -> (r: NzFloat)
        ensures
            r@ == NEG_ONE_BITS,
    {
        NzFloat::new_unchecked(NEG_ONE_BITS)
    }

    /// How this value stands to `other` in the total order: from negative
    /// infinity through the negative numbers and the positive numbers to
    /// positive infinity.
    pub fn cmp(&self, other: &NzFloat) -> (r: Ordering)
        ensures
            r == compare_bits(self@, other@),
    {
        let a: u64 = self.0;
        let b: u64 = other.0;
        if a < SIGN_BIT {
            if b >= SIGN_BIT || a > b {
                Ordering::Greater
            } else if a < b {
                Ordering::Less
            } else {
                Ordering::Equal
            }
        } else {
            if b < SIGN_BIT || a > b {
                Ordering::Less
            } else if a < b {
                Ordering::Greater
            } else {
                Ordering::Equal
            }
        }
    }

    /// The order is strict and total: no value stands before itself, the
    /// order passes along a chain, and of two different values exactly one
    /// stands before the other.
    pub proof fn lemma_strict_total_order(a: NzFloat, b: NzFloat, c: NzFloat)
        ensures
            !a.precedes(a),
            a.precedes(b) && b.precedes(c) ==> a.precedes(c),
            a != b ==> a.precedes(b) || b.precedes(a),
            !(a.precedes(b) && b.precedes(a)),
    {
    }

    /// Comparison agrees with equality, and turns round when its sides are
    /// exchanged.
    pub proof fn lemma_compare_agrees(a: NzFloat, b: NzFloat)
        ensures
            compare_bits(a@, b@) == Ordering::Equal <==> a == b,
            compare_bits(a@, b@) == Ordering::Greater <==> b.precedes(a),
    {
    }

    /// The order of values is the order of the numbers they stand for, and
    /// two values are equal exactly when they stand for the same number.
    pub proof fn lemma_order_is_numeric(a: NzFloat, b: NzFloat)
        requires
            a.wf(),
            b.wf(),
        ensures
            a.precedes(b) <==> scaled_value(a@) < scaled_value(b@),
            a == b <==> scaled_value(a@) == scaled_value(b@),
    {
        lemma_order_key_is_numeric(a@, b@);
    }

    /// The absolute value stands for the absolute value of the number, and
    /// the sign for the number one with the sign of the number.
    pub proof fn lemma_abs_signum_are_numeric(a: NzFloat)
        requires
            a.wf(),
        ensures
            scaled_value(a@) > 0 ==> scaled_value(magnitude_bits(a@)) == scaled_value(a@)
                && scaled_value(signum_bits(a@)) == pow2(1074),
            scaled_value(a@) < 0 ==> scaled_value(magnitude_bits(a@)) == -scaled_value(a@)
                && scaled_value(signum_bits(a@)) == -pow2(1074),
            scaled_value(a@) != 0,
    {
        lemma_scaled_value_of_magnitude(a@);
        lemma_scaled_value_of_zero(a@);
        lemma_scaled_value_of_one();
    }

    /// The order runs from negative infinity through the values with the
    /// sign bit set, by falling magnitude, and then through those with it
    /// clear, by rising magnitude, to positive infinity.
    pub proof fn lemma_order_by_sign_and_magnitude(a: NzFloat, b: NzFloat)
        requires
            a.wf(),
            b.wf(),
        ensures
            is_negative_bits(a@) && !is_negative_bits(b@) ==> a.precedes(b),
            is_negative_bits(a@) && is_negative_bits(b@) ==> (a.precedes(b) <==> magnitude_bits(a@)
                > magnitude_bits(b@)),
            !is_negative_bits(a@) && !is_negative_bits(b@) ==> (a.precedes(b) <==> magnitude_bits(
                a@,
            ) < magnitude_bits(b@)),
            order_key(NEG_INFINITY_BITS) <= order_key(a@) <= order_key(INFINITY_BITS),
    {
    }
}

impl PartialOrd for NzFloat {
    /// Values are ordered by the total order, so two of them always compare.
    fn partial_cmp(&self, other: &NzFloat) -> (r: Option<Ordering>) {
        Some(self.cmp(other))
    }
}

impl PartialOrdSpecImpl for NzFloat {
    open spec fn obeys_partial_cmp_spec() -> bool {
        true
    }

    open spec fn partial_cmp_spec(&self, other: &NzFloat) -> Option<Ordering> {
        Some(compare_bits(self@, other@))
    }
}

impl TryFrom<u64> for NzFloat {
    type Error = NzfError;

    /// The value holding `bits`, or `ZeroResult` if they are a zero or a
    /// NaN. The conversion has the one name for both refusals; it is
    /// [`NzFloat::checked_from_bits`] that tells them apart.
    fn try_from(bits: u64) -> (r: Result<NzFloat, NzfError>)
        ensures
            NzFloat::result_view(r) == conversion_outcome(bits),
    {
        match NzFloat::new(bits) {
            Some(x) => Ok(x),
            None => Err(NzfError::ZeroResult),
        }
    }
}

impl TryFromSpecImpl<u64> for NzFloat {
    open spec fn obeys_try_from_spec() -> bool {
        true
    }

    open spec fn try_from_spec(bits: u64) -> Result<NzFloat, NzfError> {
        match conversion_outcome(bits) {
            Ok(admitted) => Ok(NzFloat::holding(admitted)),
            Err(e) => Err(e),
        }
    }
}

impl From<NzFloat> for u64 {
    /// The bit pattern that the value holds.
    fn from(v: NzFloat) -> (r: u64) {
        v.get()
    }
}

impl FromSpecImpl<NzFloat> for u64 {
    open spec fn obeys_from_spec() -> bool {
        true
    }

    open spec fn from_spec(v: NzFloat) -> u64 {
        v@
    }
}

} // verus!
