//! A two-valued sign that doubles as a boolean: `Neg` is -1 and false,
//! `Pos` is +1 and true.
//!
//! The connectives work on the signs themselves and are total: the type has
//! no third state to fall into.

use vstd::prelude::*;

verus! {

/// A sign read as a truth value: `Neg` stands for -1 and false, `Pos` for +1
/// and true.
#[allow(non_camel_case_types)]
#[derive(Debug, Clone, Copy, PartialEq, Eq, Structural)]
pub enum nzSign {
    Neg,
    Pos,
}

impl nzSign {
    /// The truth value a sign stands for.
    pub open spec fn truth(self) -> bool {
        self == nzSign::Pos
    }

    /// The number a sign stands for.
    pub open spec fn number(self) -> int {
        if self == nzSign::Pos {
            1
        } else {
            -1
        }
    }

    /// The sign that stands for a truth value.
    pub open spec fn of_truth(b: bool) -> nzSign {
        if b {
            nzSign::Pos
        } else {
            nzSign::Neg
        }
    }

    /// The sign that stands for a number, if the number is 1 or -1.
    pub open spec fn of_number(v: int) -> Option<nzSign> {
        if v == 1 {
            Some(nzSign::Pos)
        } else if v == -1 {
            Some(nzSign::Neg)
        } else {
            None
        }
    }

    /// The other sign.
    pub open spec fn not_spec(self) -> nzSign {
        Self::of_truth(!self.truth())
    }

    /// The conjunction of two signs.
    pub open spec fn and_spec(self, rhs: nzSign) -> nzSign {
        Self::of_truth(self.truth() && rhs.truth())
    }

    /// The disjunction of two signs.
    pub open spec fn or_spec(self, rhs: nzSign) -> nzSign {
        Self::of_truth(self.truth() || rhs.truth())
    }

    /// The exclusive disjunction of two signs.
    pub open spec fn xor_spec(self, rhs: nzSign) -> nzSign {
        Self::of_truth(self.truth() != rhs.truth())
    }

    /// Is this `Pos`?
    pub fn is_true(self) -> (r: bool)
        ensures
            r == self.truth(),
    {
        match self {
            nzSign::Pos => true,
            nzSign::Neg => false,
        }
    }

    /// Is this `Neg`?
    pub fn is_false(self) -> (r: bool)
        ensures
            r == !self.truth(),
    {
        match self {
            nzSign::Pos => false,
            nzSign::Neg => true,
        }
    }

    /// Logical NOT: the other sign.
    pub fn not(self) -> (r: nzSign)
        ensures
            r == self.not_spec(),
            r != self,
    {
        if self.is_true() {
            nzSign::Neg
        } else {
            nzSign::Pos
        }
    }

    /// Logical AND: `Pos` only when both signs are `Pos`.
    pub fn and(self, rhs: nzSign) -> (r: nzSign)
        ensures
            r == self.and_spec(rhs),
            r == nzSign::Pos <==> self == nzSign::Pos && rhs == nzSign::Pos,
    {
        if self.is_false() {
            nzSign::Neg
        } else {
            rhs
        }
    }

    /// Logical OR: `Neg` only when both signs are `Neg`.
    pub fn or(self, rhs: nzSign) -> (r: nzSign)
        ensures
            r == self.or_spec(rhs),
            r == nzSign::Neg <==> self == nzSign::Neg && rhs == nzSign::Neg,
    {
        if self.is_true() {
            nzSign::Pos
        } else {
            rhs
        }
    }

    /// Logical XOR: `Pos` exactly when the signs differ.
    pub fn xor(self, rhs: nzSign) -> (r: nzSign)
        ensures
            r == self.xor_spec(rhs),
            r == nzSign::Pos <==> self != rhs,
    {
        if self == rhs {
            nzSign::Neg
        } else {
            nzSign::Pos
        }
    }

    /// The sign as a byte: 1 or -1.
    pub fn to_i8(self) -> (r: i8)
        ensures
            r == self.number(),
    {
        match self {
            nzSign::Pos => 1,
            nzSign::Neg => -1,
        }
    }

    /// The sign that a byte stands for: `Pos` for 1, `Neg` for -1, and
    /// nothing for any other byte.
    pub fn from_i8(v: i8) -> (r: Option<nzSign>)
        ensures
            r == Self::of_number(v as int),
    {
        if v == 1 {
            Some(nzSign::Pos)
        } else if v == -1 {
            Some(nzSign::Neg)
        } else {
            None
        }
    }

    /// The sign as a boolean.
    pub fn to_bool(self) -> (r: bool)
        ensures
            r == self.truth(),
    {
        self.is_true()
    }

    /// The sign of a boolean: `Pos` for true, `Neg` for false.
    pub fn from_bool(b: bool) -> (r: nzSign)
        ensures
            r == Self::of_truth(b),
    {
        if b {
            nzSign::Pos
        } else {
            nzSign::Neg
        }
    }

    /// Negating twice gives back the sign.
    pub proof fn lemma_not_involutive(x: nzSign)
        ensures
            x.not_spec().not_spec() == x,
    {
    }

    /// The connectives have the truth tables of their boolean namesakes:
    /// a conjunction is `Pos` exactly when both signs are, a disjunction is
    /// `Neg` exactly when both signs are, and an exclusive disjunction is
    /// `Pos` exactly when the signs differ.
    pub proof fn lemma_truth_tables(x: nzSign, y: nzSign)
        ensures
            x.and_spec(y) == nzSign::Pos <==> x == nzSign::Pos && y == nzSign::Pos,
            x.or_spec(y) == nzSign::Neg <==> x == nzSign::Neg && y == nzSign::Neg,
            x.xor_spec(y) == nzSign::Pos <==> x != y,
    {
    }

    /// Reading a sign's number back gives the sign, and no number but 1 and
    /// -1 is a sign's.
    pub proof fn lemma_number_round_trip(x: nzSign, v: int)
        ensures
            Self::of_number(x.number()) == Some(x),
            Self::of_number(v) matches Some(s) ==> s.number() == v,
            Self::of_number(v) is None <==> v != 1 && v != -1,
    {
    }

    /// Reading a sign's truth value back gives the sign, and the other way
    /// round.
    pub proof fn lemma_truth_round_trip(x: nzSign, b: bool)
        ensures
            Self::of_truth(x.truth()) == x,
            Self::of_truth(b).truth() == b,
    {
    }
}

} // verus!
