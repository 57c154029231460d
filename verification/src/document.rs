//! The document model: a tree of JSON-like values.
use vstd::prelude::*;
use vstd::std_specs::convert::FromSpecImpl;
use crate::binary64;

verus! {

/// The six kinds of value a document is made of.
#[derive(Clone, Copy, Debug, PartialEq, Eq, Structural)]
pub enum Kind {
    Null,
    Bool,
    Number,
    String,
    Array,
    Object,
}

/// A number of a document.
///
/// Integers are held exactly.  Any other number is a binary64 floating point
/// value, held as its IEEE-754 bit pattern.
#[derive(Clone, Copy, Debug)]
pub enum Number {
    /// An integer that is not negative.
    PosInt(u64),
    /// An integer that may be negative.
    NegInt(i64),
    /// The bit pattern of a floating point value.
    Float(u64),
}

impl Number {
    /// Whether `bound <= self`.
    pub open spec fn is_at_least(&self, bound: int) -> bool {
        match self {
            Number::PosInt(v) => bound <= *v,
            Number::NegInt(v) => bound <= *v,
            Number::Float(bits) => binary64::is_at_least(*bits, bound),
        }
    }

    /// Whether `self <= bound`.
    pub open spec fn is_at_most(&self, bound: int) -> bool {
        match self {
            Number::PosInt(v) => *v <= bound,
            Number::NegInt(v) => *v <= bound,
            Number::Float(bits) => binary64::is_at_most(*bits, bound),
        }
    }

    /// Whether the number lies within the bounds that are set, both inclusive.
    pub open spec fn is_within(&self, min: Option<i64>, max: Option<i64>) -> bool {
        &&& min matches Some(lo) ==> self.is_at_least(lo as int)
        &&& max matches Some(hi) ==> self.is_at_most(hi as int)
    }

    /// The number with the given floating point bit pattern, unless the
    /// pattern is an infinity or not a number.
    pub fn from_f64_bits(bits: u64) -> (n: Option<Number>)
        ensures
            n == (if binary64::finite(bits) {
                Some(Number::Float(bits))
            } else {
                None
            }),
    {
        let rest: u64 = if bits >= binary64::SIGN_BIT {
            bits - binary64::SIGN_BIT
        } else {
            bits
        };
        if rest / binary64::HIDDEN_BIT == binary64::SPECIAL_EXPONENT {
            None
        } else {
            Some(Number::Float(bits))
        }
    }

    /// Decides whether `bound <= self`.
    pub fn at_least(&self, bound: i64) -> (ok: bool)
        ensures
            ok == self.is_at_least(bound as int),
    {
        match self {
            Number::PosInt(v) => bound < 0 || bound as u64 <= *v,
            Number::NegInt(v) => bound <= *v,
            Number::Float(bits) => binary64::relate(*bits, bound).0,
        }
    }

    /// Decides whether `self <= bound`.
    pub fn at_most(&self, bound: i64) -> (ok: bool)
        ensures
            ok == self.is_at_most(bound as int),
    {
        match self {
            Number::PosInt(v) => bound >= 0 && *v <= bound as u64,
            Number::NegInt(v) => *v <= bound,
            Number::Float(bits) => binary64::relate(*bits, bound).1,
        }
    }

    /// Decides whether the number lies within the bounds that are set.
    pub fn within(&self, min: Option<i64>, max: Option<i64>) -> (ok: bool)
        ensures
            ok == self.is_within(min, max),
    {
        let above = match min {
            Some(lo) => self.at_least(lo),
            None => true,
        };
        let below = match max {
            Some(hi) => self.at_most(hi),
            None => true,
        };
        above && below
    }
}

impl From<u64> for Number {
    fn from(v: u64) -> (n: Number) {
        Number::PosInt(v)
    }
}

impl FromSpecImpl<u64> for Number {
    open spec fn obeys_from_spec() -> bool {
        true
    }

    open spec fn from_spec(v: u64) -> Number {
        Number::PosInt(v)
    }
}

impl From<i64> for Number {
    fn from(v: i64) -> (n: Number) {
        if v < 0 {
            Number::NegInt(v)
        } else {
            Number::PosInt(v as u64)
        }
    }
}

impl FromSpecImpl<i64> for Number {
    open spec fn obeys_from_spec() -> bool {
        true
    }

    open spec fn from_spec(v: i64) -> Number {
        if v < 0 {
            Number::NegInt(v)
        } else {
            Number::PosInt(v as u64)
        }
    }
}

impl From<i8> for Number {
    fn from(v: i8) -> (n: Number) {
        if v < 0 {
            Number::NegInt(v as i64)
        } else {
            Number::PosInt(v as u64)
        }
    }
}

impl FromSpecImpl<i8> for Number {
    open spec fn obeys_from_spec() -> bool {
        true
    }

    open spec fn from_spec(v: i8) -> Number {
        if v < 0 {
            Number::NegInt(v as i64)
        } else {
            Number::PosInt(v as u64)
        }
    }
}

/// A document value.
///
/// An object is held as its members in document order; a member is a name
/// and a value.
#[derive(Debug)]
pub enum Value {
    Null,
    Bool(bool),
    Number(Number),
    String(String),
    Array(Vec<Value>),
    Object(Vec<(String, Value)>),
}

impl Value {
    /// The kind of this value.
    pub open spec fn kind_of(&self) -> Kind {
        match self {
            Value::Null => Kind::Null,
            Value::Bool(_) => Kind::Bool,
            Value::Number(_) => Kind::Number,
            Value::String(_) => Kind::String,
            Value::Array(_) => Kind::Array,
            Value::Object(_) => Kind::Object,
        }
    }

    /// The kind of this value.
    pub fn kind(&self) -> (k: Kind)
        ensures
            k == self.kind_of(),
    {
        match self {
            Value::Null => Kind::Null,
            Value::Bool(_) => Kind::Bool,
            Value::Number(_) => Kind::Number,
            Value::String(_) => Kind::String,
            Value::Array(_) => Kind::Array,
            Value::Object(_) => Kind::Object,
        }
    }
}

} // verus!
