use nznum::nzsign::nzSign;

const BOTH: [nzSign; 2] = [nzSign::Neg, nzSign::Pos];

#[test]
fn sign_from_bool_and_back() {
    assert_eq!(nzSign::from_bool(true), nzSign::Pos);
    assert_eq!(nzSign::from_bool(false), nzSign::Neg);
    assert!(nzSign::Pos.to_bool());
    assert!(!nzSign::Neg.to_bool());
    for b in [true, false] {
        assert_eq!(nzSign::from_bool(b).to_bool(), b);
    }
    for x in BOTH {
        assert_eq!(nzSign::from_bool(x.to_bool()), x);
    }
}

#[test]
fn sign_is_true_and_is_false() {
    assert!(nzSign::Pos.is_true());
    assert!(!nzSign::Pos.is_false());
    assert!(nzSign::Neg.is_false());
    assert!(!nzSign::Neg.is_true());
}

#[test]
fn sign_not_flips() {
    assert_eq!(nzSign::Pos.not(), nzSign::Neg);
    assert_eq!(nzSign::Neg.not(), nzSign::Pos);
}

#[test]
fn sign_not_twice_is_the_sign() {
    for x in BOTH {
        assert_eq!(x.not().not(), x);
    }
}

#[test]
fn sign_and_truth_table() {
    assert_eq!(nzSign::Pos.and(nzSign::Pos), nzSign::Pos);
    assert_eq!(nzSign::Pos.and(nzSign::Neg), nzSign::Neg);
    assert_eq!(nzSign::Neg.and(nzSign::Pos), nzSign::Neg);
    assert_eq!(nzSign::Neg.and(nzSign::Neg), nzSign::Neg);
}

#[test]
fn sign_or_truth_table() {
    assert_eq!(nzSign::Pos.or(nzSign::Pos), nzSign::Pos);
    assert_eq!(nzSign::Pos.or(nzSign::Neg), nzSign::Pos);
    assert_eq!(nzSign::Neg.or(nzSign::Pos), nzSign::Pos);
    assert_eq!(nzSign::Neg.or(nzSign::Neg), nzSign::Neg);
}

#[test]
fn sign_xor_truth_table() {
    assert_eq!(nzSign::Pos.xor(nzSign::Pos), nzSign::Neg);
    assert_eq!(nzSign::Pos.xor(nzSign::Neg), nzSign::Pos);
    assert_eq!(nzSign::Neg.xor(nzSign::Pos), nzSign::Pos);
    assert_eq!(nzSign::Neg.xor(nzSign::Neg), nzSign::Neg);
}

#[test]
fn sign_connectives_agree_with_the_booleans() {
    for x in BOTH {
        for y in BOTH {
            assert_eq!(x.and(y).to_bool(), x.to_bool() && y.to_bool());
            assert_eq!(x.or(y).to_bool(), x.to_bool() || y.to_bool());
            assert_eq!(x.xor(y).to_bool(), x.to_bool() != y.to_bool());
            assert_eq!(x.and(y) == nzSign::Pos, x == nzSign::Pos && y == nzSign::Pos);
            assert_eq!(x.or(y) == nzSign::Neg, x == nzSign::Neg && y == nzSign::Neg);
            assert_eq!(x.xor(y) == nzSign::Pos, x != y);
        }
    }
}

#[test]
fn sign_to_i8_is_one_or_minus_one() {
    assert_eq!(nzSign::Pos.to_i8(), 1);
    assert_eq!(nzSign::Neg.to_i8(), -1);
}

#[test]
fn sign_from_i8_reads_one_and_minus_one() {
    assert_eq!(nzSign::from_i8(1), Some(nzSign::Pos));
    assert_eq!(nzSign::from_i8(-1), Some(nzSign::Neg));
}

#[test]
fn sign_from_i8_is_absent_for_other_bytes() {
    assert_eq!(nzSign::from_i8(0), None);
    assert_eq!(nzSign::from_i8(42), None);
    for v in i8::MIN..=i8::MAX {
        if v != 1 && v != -1 {
            assert_eq!(nzSign::from_i8(v), None);
        }
    }
}

#[test]
fn sign_from_i8_undoes_to_i8() {
    for x in BOTH {
        assert_eq!(nzSign::from_i8(x.to_i8()), Some(x));
    }
    for v in [1i8, -1] {
        assert_eq!(nzSign::from_i8(v).map(|s| s.to_i8()), Some(v));
    }
}

#[test]
fn sign_debug_names_the_variant() {
    assert_eq!(format!("{:?}", nzSign::Pos), "Pos");
    assert_eq!(format!("{:?}", nzSign::Neg), "Neg");
}
