use nznum::nzint::NzError;
use nznum::nzint::NzInt;
use std::cmp::Ordering;
use std::collections::hash_map::DefaultHasher;
use std::collections::BTreeSet;
use std::hash::Hash;
use std::hash::Hasher;

fn nz(v: i64) -> NzInt {
    NzInt::new(v).expect("non-zero")
}

fn hash_of<T: Hash>(t: &T) -> u64 {
    let mut h = DefaultHasher::new();
    t.hash(&mut h);
    h.finish()
}

#[test]
fn int_new_refuses_zero() {
    assert!(NzInt::new(0).is_none());
}

#[test]
fn int_new_round_trips_every_other_value() {
    for v in [1i64, -1, 2, -2, 42, -42, i64::MAX, i64::MIN, i64::MAX - 1, i64::MIN + 1] {
        let n = NzInt::new(v).expect("non-zero");
        assert_eq!(n.get(), v);
    }
}

#[test]
fn int_try_from_refuses_zero_as_zero_result() {
    assert_eq!(NzInt::try_from(0i64), Err(NzError::ZeroResult));
}

#[test]
fn int_try_from_round_trips() {
    for v in [1i64, -1, 17, i64::MAX, i64::MIN] {
        assert_eq!(NzInt::try_from(v).map(|n| n.get()), Ok(v));
    }
}

#[test]
fn int_try_into_goes_through_the_same_conversion() {
    let r: Result<NzInt, NzError> = 9i64.try_into();
    assert_eq!(r, Ok(nz(9)));
    let r: Result<NzInt, NzError> = 0i64.try_into();
    assert_eq!(r, Err(NzError::ZeroResult));
}

#[test]
fn int_add_of_opposites_is_zero_result() {
    assert_eq!(nz(3).checked_add(nz(-3)), Err(NzError::ZeroResult));
    assert_eq!(nz(i64::MAX).checked_add(nz(-i64::MAX)), Err(NzError::ZeroResult));
}

#[test]
fn int_add_gives_the_sum() {
    assert_eq!(nz(3).checked_add(nz(4)), Ok(nz(7)));
    assert_eq!(nz(-10).checked_add(nz(4)), Ok(nz(-6)));
}

#[test]
fn int_add_wraps_past_the_ends() {
    assert_eq!(nz(i64::MAX).checked_add(nz(1)), Ok(nz(i64::MIN)));
    assert_eq!(nz(i64::MIN).checked_add(nz(-1)), Ok(nz(i64::MAX)));
    assert_eq!(nz(i64::MAX).checked_add(nz(i64::MAX)), Ok(nz(-2)));
}

#[test]
fn int_add_of_least_to_itself_wraps_to_zero() {
    assert_eq!(nz(i64::MIN).checked_add(nz(i64::MIN)), Err(NzError::ZeroResult));
}

#[test]
fn int_add_agrees_with_wrapping_add_on_a_grid() {
    let samples = [1i64, -1, 2, -2, 1000, -1000, i64::MAX, i64::MIN, i64::MAX - 1, i64::MIN + 1];
    for a in samples {
        for b in samples {
            let sum = a.wrapping_add(b);
            let got = nz(a).checked_add(nz(b));
            if sum == 0 {
                assert_eq!(got, Err(NzError::ZeroResult));
            } else {
                assert_eq!(got.map(|n| n.get()), Ok(sum));
            }
        }
    }
}

#[test]
fn int_sub_of_equals_is_zero_result() {
    assert_eq!(nz(5).checked_sub(nz(5)), Err(NzError::ZeroResult));
    assert_eq!(nz(i64::MIN).checked_sub(nz(i64::MIN)), Err(NzError::ZeroResult));
}

#[test]
fn int_sub_gives_the_difference() {
    assert_eq!(nz(5).checked_sub(nz(3)), Ok(nz(2)));
    assert_eq!(nz(3).checked_sub(nz(5)), Ok(nz(-2)));
}

#[test]
fn int_sub_wraps_past_the_ends() {
    assert_eq!(nz(i64::MIN).checked_sub(nz(1)), Ok(nz(i64::MAX)));
    assert_eq!(nz(i64::MAX).checked_sub(nz(-1)), Ok(nz(i64::MIN)));
    assert_eq!(nz(1).checked_sub(nz(i64::MIN)), Ok(nz(i64::MIN + 1)));
}

#[test]
fn int_mul_gives_the_product() {
    assert_eq!(nz(3).checked_mul(nz(2)), Ok(nz(6)));
    assert_eq!(nz(-3).checked_mul(nz(2)), Ok(nz(-6)));
    assert_eq!(nz(-3).checked_mul(nz(-2)), Ok(nz(6)));
}

#[test]
fn int_mul_wraps_past_the_ends() {
    assert_eq!(nz(i64::MAX).checked_mul(nz(2)), Ok(nz(-2)));
    assert_eq!(nz(i64::MIN).checked_mul(nz(-1)), Ok(nz(i64::MIN)));
    assert_eq!(nz(1 << 62).checked_mul(nz(2)), Ok(nz(i64::MIN)));
}

#[test]
fn int_mul_that_wraps_to_zero_is_zero_result() {
    assert_eq!(nz(1 << 32).checked_mul(nz(1 << 32)), Err(NzError::ZeroResult));
    assert_eq!(nz(i64::MIN).checked_mul(nz(2)), Err(NzError::ZeroResult));
}

#[test]
fn int_div_truncates_toward_zero() {
    assert_eq!(nz(3).checked_div(nz(2)), Ok(nz(1)));
    assert_eq!(nz(7).checked_div(nz(2)), Ok(nz(3)));
    assert_eq!(nz(-7).checked_div(nz(2)), Ok(nz(-3)));
    assert_eq!(nz(7).checked_div(nz(-2)), Ok(nz(-3)));
    assert_eq!(nz(-7).checked_div(nz(-2)), Ok(nz(3)));
}

#[test]
fn int_div_with_a_zero_quotient_is_zero_result() {
    assert_eq!(nz(2).checked_div(nz(7)), Err(NzError::ZeroResult));
    assert_eq!(nz(-2).checked_div(nz(7)), Err(NzError::ZeroResult));
    assert_eq!(nz(2).checked_div(nz(-7)), Err(NzError::ZeroResult));
    assert_eq!(nz(i64::MAX).checked_div(nz(i64::MIN)), Err(NzError::ZeroResult));
}

#[test]
fn int_div_of_least_by_minus_one_is_div_overflow() {
    assert_eq!(nz(i64::MIN).checked_div(nz(-1)), Err(NzError::DivOverflow));
}

#[test]
fn int_div_at_the_ends() {
    assert_eq!(nz(i64::MIN).checked_div(nz(1)), Ok(nz(i64::MIN)));
    assert_eq!(nz(i64::MIN).checked_div(nz(i64::MIN)), Ok(nz(1)));
    assert_eq!(nz(i64::MIN).checked_div(nz(2)), Ok(nz(i64::MIN / 2)));
    assert_eq!(nz(i64::MAX).checked_div(nz(-1)), Ok(nz(-i64::MAX)));
    assert_eq!(nz(i64::MIN).checked_div(nz(i64::MAX)), Ok(nz(-1)));
}

#[test]
fn int_div_agrees_with_the_machine_on_a_grid() {
    let samples = [1i64, -1, 2, -2, 3, -3, 7, -7, 1000, -1000, i64::MAX, i64::MIN, i64::MIN + 1];
    for a in samples {
        for b in samples {
            let got = nz(a).checked_div(nz(b));
            if a == i64::MIN && b == -1 {
                assert_eq!(got, Err(NzError::DivOverflow));
            } else if a / b == 0 {
                assert_eq!(got, Err(NzError::ZeroResult));
            } else {
                assert_eq!(got.map(|n| n.get()), Ok(a / b));
            }
        }
    }
}

#[test]
fn int_neg_of_least_is_div_overflow() {
    assert_eq!(nz(i64::MIN).checked_neg(), Err(NzError::DivOverflow));
}

#[test]
fn int_neg_changes_the_sign() {
    assert_eq!(nz(5).checked_neg(), Ok(nz(-5)));
    assert_eq!(nz(-5).checked_neg(), Ok(nz(5)));
    assert_eq!(nz(i64::MAX).checked_neg(), Ok(nz(i64::MIN + 1)));
}

#[test]
fn int_abs_of_least_is_div_overflow() {
    assert_eq!(nz(i64::MIN).checked_abs(), Err(NzError::DivOverflow));
}

#[test]
fn int_abs_drops_the_sign() {
    assert_eq!(nz(5).checked_abs(), Ok(nz(5)));
    assert_eq!(nz(-5).checked_abs(), Ok(nz(5)));
    assert_eq!(nz(i64::MIN + 1).checked_abs(), Ok(nz(i64::MAX)));
}

#[test]
fn int_neg_and_abs_undo_each_other() {
    for v in [1i64, -1, 5, -5, i64::MAX, i64::MIN + 1] {
        let a = nz(v);
        let back = a.checked_neg().and_then(|n| n.checked_neg());
        assert_eq!(back, Ok(a));
        if v < 0 {
            assert_eq!(a.checked_abs(), a.checked_neg());
            assert_eq!(a.checked_abs().and_then(|m| m.checked_neg()), Ok(a));
        } else {
            assert_eq!(a.checked_neg().and_then(|n| n.checked_abs()), Ok(a));
            assert_eq!(a.checked_abs(), Ok(a));
        }
    }
}

#[test]
fn int_signum_is_one_or_minus_one() {
    assert_eq!(nz(17).signum(), nz(1));
    assert_eq!(nz(-17).signum(), nz(-1));
    assert_eq!(nz(i64::MAX).signum().get(), 1);
    assert_eq!(nz(i64::MIN).signum().get(), -1);
}

#[test]
fn int_one_and_neg_one() {
    assert_eq!(NzInt::one().get(), 1);
    assert_eq!(NzInt::neg_one().get(), -1);
}

#[test]
fn int_cmp_is_the_order_of_the_integers() {
    assert_eq!(nz(3).cmp(&nz(7)), Ordering::Less);
    assert_eq!(nz(7).cmp(&nz(3)), Ordering::Greater);
    assert_eq!(nz(7).cmp(&nz(7)), Ordering::Equal);
    assert_eq!(nz(-1).cmp(&nz(1)), Ordering::Less);
    assert_eq!(nz(i64::MIN).cmp(&nz(i64::MAX)), Ordering::Less);
    assert_eq!(nz(3).partial_cmp(&nz(7)), Some(Ordering::Less));
    assert!(nz(-5) < nz(-4));
    assert!(nz(4) >= nz(4));
}

#[test]
fn int_derived_order_agrees_with_cmp() {
    let samples = [5i64, -5, 1, -1, i64::MAX, i64::MIN, 1000];
    for a in samples {
        for b in samples {
            assert_eq!(Ord::cmp(&nz(a), &nz(b)), a.cmp(&b));
            assert_eq!(nz(a).cmp(&nz(b)), a.cmp(&b));
            assert_eq!(nz(a).partial_cmp(&nz(b)), Some(a.cmp(&b)));
        }
    }
    let set: BTreeSet<NzInt> = samples.iter().map(|v| nz(*v)).collect();
    let sorted: Vec<i64> = set.iter().map(|n| n.get()).collect();
    assert_eq!(sorted, vec![i64::MIN, -5, -1, 1, 5, 1000, i64::MAX]);
}

#[test]
fn int_equal_values_are_equal_and_hash_alike() {
    assert_eq!(nz(12), nz(12));
    assert_ne!(nz(12), nz(-12));
    assert_eq!(hash_of(&nz(12)), hash_of(&nz(12)));
    assert_eq!(hash_of(&nz(12)), hash_of(&12i64));
}

#[test]
fn int_debug_shows_the_type_and_the_value() {
    assert_eq!(format!("{:?}", nz(3)), "NzInt(3)");
    assert_eq!(format!("{:?}", nz(-3)), "NzInt(-3)");
    assert_eq!(format!("{:?}", NzError::ZeroResult), "ZeroResult");
    assert_eq!(format!("{:?}", NzError::DivOverflow), "DivOverflow");
}

#[test]
fn int_to_string_writes_the_value_in_decimal() {
    assert_eq!(nz(3).to_string(), "3");
    assert_eq!(nz(-3).to_string(), "-3");
    assert_eq!(nz(10).to_string(), "10");
    assert_eq!(nz(1234567890).to_string(), "1234567890");
    assert_eq!(nz(-1000).to_string(), "-1000");
    assert_eq!(nz(i64::MAX).to_string(), "9223372036854775807");
    assert_eq!(nz(i64::MIN).to_string(), "-9223372036854775808");
}

#[test]
fn int_to_string_agrees_with_the_integer_itself() {
    for v in [1i64, -1, 9, 10, 11, 99, 100, 101, -99, -100, 4096, i64::MAX, i64::MIN] {
        assert_eq!(nz(v).to_string(), format!("{}", v));
    }
}
