//! A signed 64-bit integer that is never zero.
//!
//! Arithmetic wraps in two's complement, as fixed-width arithmetic does, and
//! refuses only what the type cannot hold: a result of zero, and a quotient
//! or negation that has no 64-bit value.

use crate::decimal::decimal_text;
use crate::decimal::i64_to_decimal;
use core::cmp::Ordering;
use vstd::prelude::*;
use vstd::std_specs::cmp::PartialOrdSpecImpl;
use vstd::std_specs::convert::TryFromSpecImpl;

verus! {

/// Why an operation on [`NzInt`] gave no value.
#[derive(Debug, Clone, Copy, PartialEq, Eq, Structural)]
pub enum NzError {
    /// The result would be zero.
    ZeroResult,
    /// The result has no 64-bit value: the least integer divided by -1,
    /// negated, or made positive.
    DivOverflow,
}

/// Can an [`NzInt`] hold `v`?
pub open spec fn is_nonzero_i64(v: int) -> bool {
    v != 0 && i64::MIN <= v <= i64::MAX
}

/// `x` reduced to 64 bits in two's complement.
pub open spec fn wrap_i64(x: int) -> int {
    let low = x % 0x1_0000_0000_0000_0000;
    if low >= 0x8000_0000_0000_0000 {
        low - 0x1_0000_0000_0000_0000
    } else {
        low
    }
}

/// What a wrapped result becomes: a value, unless it is zero.
pub open spec fn nonzero_or_error(x: int) -> Result<int, NzError> {
    if x == 0 {
        Err(NzError::ZeroResult)
    } else {
        Ok(x)
    }
}

/// The outcome of adding `b` to `a`.
pub open spec fn add_spec(a: int, b: int) -> Result<int, NzError> {
    nonzero_or_error(wrap_i64(a + b))
}

/// The outcome of subtracting `b` from `a`.
pub open spec fn sub_spec(a: int, b: int) -> Result<int, NzError> {
    nonzero_or_error(wrap_i64(a - b))
}

/// The outcome of multiplying `a` by `b`.
pub open spec fn mul_spec(a: int, b: int) -> Result<int, NzError> {
    nonzero_or_error(wrap_i64(a * b))
}

/// The distance of `a` from zero.
pub open spec fn magnitude(a: int) -> int {
    if a < 0 {
        -a
    } else {
        a
    }
}

/// The quotient of `a` by `b`, rounded toward zero: the quotient of their
/// magnitudes, negated where the signs differ.
pub open spec fn trunc_div(a: int, b: int) -> int {
    if a >= 0 {
        if b > 0 {
            a / b
        } else {
            -(a / (-b))
        }
    } else {
        if b > 0 {
            -((-a) / b)
        } else {
            (-a) / (-b)
        }
    }
}

/// The outcome of dividing `a` by `b`: the one quotient that does not fit
/// is refused first, and then a quotient of zero.
pub open spec fn div_spec(a: int, b: int) -> Result<int, NzError> {
    if a == i64::MIN && b == -1 {
        Err(NzError::DivOverflow)
    } else {
        nonzero_or_error(trunc_div(a, b))
    }
}

/// The outcome of negating `a`.
pub open spec fn neg_spec(a: int) -> Result<int, NzError> {
    if a == i64::MIN {
        Err(NzError::DivOverflow)
    } else {
        Ok(-a)
    }
}

/// The outcome of taking the absolute value of `a`.
pub open spec fn abs_spec(a: int) -> Result<int, NzError> {
    if a == i64::MIN {
        Err(NzError::DivOverflow)
    } else {
        Ok(magnitude(a))
    }
}

/// The sign of a non-zero `a`, as 1 or -1.
pub open spec fn signum_spec(a: int) -> int {
    if a > 0 {
        1
    } else {
        -1
    }
}

/// How `a` stands to `b` among the integers.
pub open spec fn compare_ints(a: int, b: int) -> Ordering {
    if a < b {
        Ordering::Less
    } else if a > b {
        Ordering::Greater
    } else {
        Ordering::Equal
    }
}

/// Dividing by a negative divisor negates the quotient by its opposite.
proof fn lemma_div_by_negative(x: int, d: int)
    by (nonlinear_arith)
    requires
        d > 0,
    ensures
        x / (-d) == -(x / d),
{
}

/// A quotient of magnitudes lies between zero and the dividend, and is zero
/// exactly when the dividend is the smaller.
proof fn lemma_quotient_bounds(x: int, d: int)
    by (nonlinear_arith)
    requires
        x >= 0,
        d > 0,
    ensures
        0 <= x / d <= x,
        d >= 2 && x > 0 ==> x / d < x,
        x / d == 0 <==> x < d,
{
}

/// A signed 64-bit integer that is never zero.
#[derive(Debug, Clone, Copy, PartialEq, Eq, Structural, Ord, Hash)]
pub struct NzInt(i64);

impl NzInt {
    /// The integer held.
    pub closed spec fn view(self) -> int {
        self.0 as int
    }

    /// The value that holds `v`.
    pub closed spec fn holding(v: i64) -> NzInt {
        NzInt(v)
    }

    /// Every value holds a non-zero integer of 64 bits.
    #[verifier::type_invariant]
    pub open spec fn wf(self) -> bool {
        is_nonzero_i64(self@)
    }

    /// A result with the value, if any, replaced by the integer it holds.
    pub open spec fn result_view(r: Result<NzInt, NzError>) -> Result<int, NzError> {
        match r {
            Ok(v) => Ok(v@),
            Err(e) => Err(e),
        }
    }

    /// A value is known by the integer it holds.
    pub proof fn lemma_view_determines(a: NzInt, b: NzInt)
        ensures
            a@ == b@ <==> a == b,
    {
    }

    /// `holding(v)` holds `v`.
    pub proof fn lemma_holding(v: i64)
        ensures
            Self::holding(v)@ == v,
    {
    }

    /// The value holding `v`, or nothing if `v` is zero.
    pub fn new(v: i64) -> (r: Option<NzInt>)
        ensures
            r is Some <==> v != 0,
            r is Some ==> r.unwrap()@ == v,
    {
        if v == 0 {
            None
        } else {
            Some(NzInt(v))
        }
    }

    /// The value holding `v`, for a `v` already known not to be zero.
    fn new_unchecked(v: i64) -> (r: NzInt)
        requires
            v != 0,
        ensures
            r@ == v,
    {
        NzInt(v)
    }

    /// The integer held.
    pub fn get(self) -> (r: i64)
        ensures
            r == self@,
            r != 0,
    {
        proof {
            use_type_invariant(&self);
        }
        self.0
    }

    /// The wrapped sum, unless it is zero.
    pub fn checked_add(self, rhs: NzInt) -> (r: Result<NzInt, NzError>)
        ensures
            Self::result_view(r) == add_spec(self@, rhs@),
    {
        let res: i64 = self.get().wrapping_add(rhs.get());
        if res == 0 {
            Err(NzError::ZeroResult)
        } else {
            Ok(NzInt::new_unchecked(res))
        }
    }

    /// The wrapped difference, unless it is zero.
    pub fn checked_sub(self, rhs: NzInt) -> (r: Result<NzInt, NzError>)
        ensures
            Self::result_view(r) == sub_spec(self@, rhs@),
    {
        let res: i64 = self.get().wrapping_sub(rhs.get());
        if res == 0 {
            Err(NzError::ZeroResult)
        } else {
            Ok(NzInt::new_unchecked(res))
        }
    }

    /// The wrapped product, unless it is zero.
    pub fn checked_mul(self, rhs: NzInt) -> (r: Result<NzInt, NzError>)
        ensures
            Self::result_view(r) == mul_spec(self@, rhs@),
    {
        let res: i64 = self.get().wrapping_mul(rhs.get());
        if res == 0 {
            Err(NzError::ZeroResult)
        } else {
            Ok(NzInt::new_unchecked(res))
        }
    }

    /// The quotient rounded toward zero, unless it does not fit or is zero.
    pub fn checked_div(self, rhs: NzInt) -> (r: Result<NzInt, NzError>)
        ensures
            Self::result_view(r) == div_spec(self@, rhs@),
    {
        let a: i64 = self.get();
        let b: i64 = rhs.get();
        if a == i64::MIN && b == -1 {
            return Err(NzError::DivOverflow);
        }
        proof {
            lemma_quotient_bounds(magnitude(a as int), magnitude(b as int));
            if b < 0 {
                lemma_div_by_negative(magnitude(a as int), -b);
            }
        }
        let q: i64 = a / b;
        if q == 0 {
            Err(NzError::ZeroResult)
        } else {
            Ok(NzInt::new_unchecked(q))
        }
    }

    /// The negation, unless it does not fit.
    pub fn checked_neg(self) -> (r: Result<NzInt, NzError>)
        ensures
            Self::result_view(r) == neg_spec(self@),
    {
        let a: i64 = self.get();
        if a == i64::MIN {
            return Err(NzError::DivOverflow);
        }
        Ok(NzInt::new_unchecked(-a))
    }

    /// The absolute value, unless it does not fit.
    pub fn checked_abs(self) -> (r: Result<NzInt, NzError>)
        ensures
            Self::result_view(r) == abs_spec(self@),
    {
        let a: i64 = self.get();
        if a == i64::MIN {
            return Err(NzError::DivOverflow);
        }
        let m: i64 = if a < 0 {
            -a
        } else {
            a
        };
        Ok(NzInt::new_unchecked(m))
    }

    /// The sign: 1 for a positive value, -1 for a negative one.
    pub fn signum(self) -> (r: NzInt)
        ensures
            r@ == signum_spec(self@),
    {
        if self.get() > 0 {
            NzInt::new_unchecked(1)
        } else {
            NzInt::new_unchecked(-1)
        }
    }

    /// The value 1.
    pub fn one() -> (r: NzInt)
        ensures
            r@ == 1,
    {
        NzInt::new_unchecked(1)
    }

    /// The value -1.
    pub fn neg_one() -> (r: NzInt)
        ensures
            r@ == -1,
    {
        NzInt::new_unchecked(-1)
    }

    /// The integer held, written in decimal.
    pub fn to_string(&self) -> (r: String)
        ensures
            r@ == decimal_text(self@),
    {
        i64_to_decimal(self.0)
    }

    /// How this value stands to `other`: as the integers they hold.
    pub fn cmp(&self, other: &NzInt) -> (r: Ordering)
        ensures
            r == compare_ints(self@, other@),
    {
        if self.0 < other.0 {
            Ordering::Less
        } else if self.0 > other.0 {
            Ordering::Greater
        } else {
            Ordering::Equal
        }
    }
}

/// An integer that fits in 64 bits is left as it is by wrapping.
pub proof fn lemma_wrap_in_range(x: int)
    requires
        i64::MIN <= x <= i64::MAX,
    ensures
        wrap_i64(x) == x,
{
}

/// A sum is refused exactly when the two values are opposite, or both the
/// least integer, whose sum wraps to zero.
pub proof fn lemma_add_zero_cases(a: int, b: int)
    requires
        is_nonzero_i64(a),
        is_nonzero_i64(b),
    ensures
        add_spec(a, b) is Err <==> a + b == 0 || (a == i64::MIN && b == i64::MIN),
{
}

/// A difference is refused exactly when the two values are equal.
pub proof fn lemma_sub_zero_cases(a: int, b: int)
    requires
        is_nonzero_i64(a),
        is_nonzero_i64(b),
    ensures
        sub_spec(a, b) is Err <==> a == b,
{
}

/// The truncated quotient `q` of `a` by `b` is such that `q * b` lies between
/// zero and `a`, less than the magnitude of `b` short of `a`.
pub proof fn lemma_trunc_div_truncates(a: int, b: int)
    requires
        b != 0,
    ensures
        magnitude(trunc_div(a, b) * b) <= magnitude(a),
        magnitude(a - trunc_div(a, b) * b) < magnitude(b),
        a >= 0 ==> a - trunc_div(a, b) * b >= 0,
        a <= 0 ==> a - trunc_div(a, b) * b <= 0,
{
    let x = magnitude(a);
    let d = magnitude(b);
    let q = x / d;
    assert(x == d * q + x % d && 0 <= x % d < d && 0 <= d * q <= x) by (nonlinear_arith)
        requires
            x >= 0,
            d > 0,
            q == x / d,
    ;
    assert(q * b == if b < 0 {
        -(d * q)
    } else {
        d * q
    }) by (nonlinear_arith)
        requires
            d == magnitude(b),
    ;
    assert((-q) * b == -(q * b)) by (nonlinear_arith);
}

/// A quotient is refused as zero exactly when the dividend is the nearer to
/// zero, and as overflow exactly for the least integer divided by -1.
pub proof fn lemma_div_error_cases(a: int, b: int)
    requires
        is_nonzero_i64(a),
        is_nonzero_i64(b),
    ensures
        div_spec(a, b) == Err::<int, NzError>(NzError::ZeroResult) <==> magnitude(a) < magnitude(b),
        div_spec(a, b) == Err::<int, NzError>(NzError::DivOverflow) <==> a == i64::MIN && b == -1,
        div_spec(a, b) matches Ok(q) ==> is_nonzero_i64(q),
{
    lemma_quotient_bounds(magnitude(a), magnitude(b));
}

/// Away from the least integer, negation and absolute value both succeed.
/// Negation undoes itself; the absolute value of a negative value is its
/// negation, so that negating it gives the value back; and the absolute
/// value of a negated positive value is the value.
pub proof fn lemma_neg_abs_inverse(a: int)
    requires
        is_nonzero_i64(a),
        a != i64::MIN,
    ensures
        neg_spec(a) == Ok::<int, NzError>(-a),
        neg_spec(-a) == Ok::<int, NzError>(a),
        abs_spec(a) == Ok::<int, NzError>(magnitude(a)),
        abs_spec(magnitude(a)) == Ok::<int, NzError>(magnitude(a)),
        a < 0 ==> abs_spec(a) == neg_spec(a) && neg_spec(magnitude(a)) == Ok::<int, NzError>(a),
        a > 0 ==> abs_spec(-a) == Ok::<int, NzError>(a),
{
}

/// The least integer has neither a negation nor an absolute value.
pub proof fn lemma_neg_abs_of_least()
    ensures
        neg_spec(i64::MIN as int) == Err::<int, NzError>(NzError::DivOverflow),
        abs_spec(i64::MIN as int) == Err::<int, NzError>(NzError::DivOverflow),
{
}

/// The order of values is the strict total order of the integers.
pub proof fn lemma_strict_total_order(a: NzInt, b: NzInt, c: NzInt)
    ensures
        compare_ints(a@, a@) == Ordering::Equal,
        compare_ints(a@, b@) == Ordering::Less && compare_ints(b@, c@) == Ordering::Less
            ==> compare_ints(a@, c@) == Ordering::Less,
        compare_ints(a@, b@) == Ordering::Equal <==> a == b,
        compare_ints(a@, b@) == Ordering::Greater <==> compare_ints(b@, a@) == Ordering::Less,
{
    NzInt::lemma_view_determines(a, b);
}

impl TryFrom<i64> for NzInt {
    type Error = NzError;

    /// The value holding `v`, unless `v` is zero.
    fn try_from(v: i64) -> (r: Result<NzInt, NzError>)
        ensures
            NzInt::result_view(r) == nonzero_or_error(v as int),
    {
        match NzInt::new(v) {
            Some(n) => Ok(n),
            None => Err(NzError::ZeroResult),
        }
    }
}

impl TryFromSpecImpl<i64> for NzInt {
    open spec fn obeys_try_from_spec() -> bool {
        true
    }

    open spec fn try_from_spec(v: i64) -> Result<NzInt, NzError> {
        if v == 0 {
            Err(NzError::ZeroResult)
        } else {
            Ok(NzInt::holding(v))
        }
    }
}

impl PartialOrd for NzInt {
    /// Values are ordered as the integers they hold, so two of them always
    /// compare.
    fn partial_cmp(&self, other: &NzInt) -> (r: Option<Ordering>) {
        Some(self.cmp(other))
    }
}

impl PartialOrdSpecImpl for NzInt {
    open spec fn obeys_partial_cmp_spec() -> bool {
        true
    }

    open spec fn partial_cmp_spec(&self, other: &NzInt) -> Option<Ordering> {
        Some(compare_ints(self@, other@))
    }
}

} // verus!
