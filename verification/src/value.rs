//! Parsed values of environment variables.
use vstd::prelude::*;
use vstd::std_specs::cmp::PartialEqSpecImpl;
use vstd::std_specs::convert::FromSpecImpl;

use crate::text::{int_text, int_text_of, same_text};

verus! {

/// A parsed environment variable value.
///
/// A float is held by the bit pattern of its `f64` (`f64::to_bits`), so that
/// two floats are equal exactly when their bits are.
#[derive(Debug)]
pub enum EnvValue {
    Str(String),
    Int(i64),
    Float(u64),
    Bool(bool),
}

/// The mathematical content of an [`EnvValue`].
pub enum ValueModel {
    Str(Seq<char>),
    Int(i64),
    Float(u64),
    Bool(bool),
}

/// The text a value displays as: a string as itself, an integer in decimal,
/// a boolean as `true` or `false`. A float's text comes from float
/// formatting, which is not modelled here, so it has none.
pub open spec fn display_model(v: ValueModel) -> Option<Seq<char>> {
    match v {
        ValueModel::Str(s) => Some(s),
        ValueModel::Int(n) => Some(int_text(n as int)),
        ValueModel::Bool(b) => Some(if b { "true"@ } else { "false"@ }),
        ValueModel::Float(_) => None,
    }
}

impl View for EnvValue {
    type V = ValueModel;

    open spec fn view(&self) -> ValueModel {
        match self {
            EnvValue::Str(s) => ValueModel::Str(s@),
            EnvValue::Int(n) => ValueModel::Int(*n),
            EnvValue::Float(b) => ValueModel::Float(*b),
            EnvValue::Bool(b) => ValueModel::Bool(*b),
        }
    }
}

impl EnvValue {
    /// A string value holding a copy of `s`.
    pub fn text(s: &str) -> (v: EnvValue)
        ensures
            v@ == ValueModel::Str(s@),
    {
        EnvValue::Str(s.to_string())
    }

    /// The text, if this is a string value.
    pub fn as_str(&self) -> (text: Option<&str>)
        ensures
            match self@ {
                ValueModel::Str(s) => text matches Some(t) && t@ == s,
                _ => text is None,
            },
    {
        match self {
            EnvValue::Str(s) => Some(s.as_str()),
            _ => None,
        }
    }

    /// The text the value displays as; `None` for a float, whose text is
    /// given by float formatting.
    pub fn display_text(&self) -> (t: Option<String>)
        ensures
            match self@ {
                ValueModel::Str(s) => t matches Some(x) && x@ == s,
                ValueModel::Int(n) => t matches Some(x) && x@ == int_text(n as int),
                ValueModel::Bool(b) => t matches Some(x) && x@ == (if b {
                    "true"@
                } else {
                    "false"@
                }),
                ValueModel::Float(_) => t is None,
            },
    {
        match self {
            EnvValue::Str(s) => Some(s.clone()),
            EnvValue::Int(n) => Some(int_text_of(*n)),
            EnvValue::Bool(b) => if *b {
                Some(String::from_str("true"))
            } else {
                Some(String::from_str("false"))
            },
            EnvValue::Float(_) => None,
        }
    }

    /// The integer, if this is an integer value.
    pub fn as_int(&self) -> (n: Option<i64>)
        ensures
            n == (match self@ {
                ValueModel::Int(v) => Some(v),
                _ => None::<i64>,
            }),
    {
        match self {
            EnvValue::Int(n) => Some(*n),
            _ => None,
        }
    }

    /// The bit pattern of the `f64`, if this is a float value.
    pub fn as_float_bits(&self) -> (bits: Option<u64>)
        ensures
            bits == (match self@ {
                ValueModel::Float(b) => Some(b),
                _ => None::<u64>,
            }),
    {
        match self {
            EnvValue::Float(b) => Some(*b),
            _ => None,
        }
    }

    /// The boolean, if this is a boolean value.
    pub fn as_bool(&self) -> (b: Option<bool>)
        ensures
            b == (match self@ {
                ValueModel::Bool(v) => Some(v),
                _ => None::<bool>,
            }),
    {
        match self {
            EnvValue::Bool(b) => Some(*b),
            _ => None,
        }
    }
}

impl Clone for EnvValue {
    fn clone(&self) -> (copy: Self)
        ensures
            copy@ == self@,
    {
        match self {
            EnvValue::Str(s) => EnvValue::Str(s.clone()),
            EnvValue::Int(n) => EnvValue::Int(*n),
            EnvValue::Float(b) => EnvValue::Float(*b),
            EnvValue::Bool(b) => EnvValue::Bool(*b),
        }
    }
}

impl PartialEq for EnvValue {
    fn eq(&self, other: &Self) -> (same: bool) {
        match (self, other) {
            (EnvValue::Str(a), EnvValue::Str(b)) => same_text(a.as_str(), b.as_str()),
            (EnvValue::Int(a), EnvValue::Int(b)) => *a == *b,
            (EnvValue::Float(a), EnvValue::Float(b)) => *a == *b,
            (EnvValue::Bool(a), EnvValue::Bool(b)) => *a == *b,
            _ => false,
        }
    }
}

impl PartialEqSpecImpl for EnvValue {
    open spec fn obeys_eq_spec() -> bool {
        true
    }

    open spec fn eq_spec(&self, other: &EnvValue) -> bool {
        self@ == other@
    }
}

impl From<String> for EnvValue {
    fn from(s: String) -> (v: EnvValue)
        ensures
            v@ == ValueModel::Str(s@),
    {
        EnvValue::Str(s)
    }
}

impl FromSpecImpl<String> for EnvValue {
    open spec fn obeys_from_spec() -> bool {
        true
    }

    open spec fn from_spec(s: String) -> EnvValue {
        EnvValue::Str(s)
    }
}

impl From<&str> for EnvValue {
    fn from(s: &str) -> (v: EnvValue)
        ensures
            v@ == ValueModel::Str(s@),
    {
        EnvValue::text(s)
    }
}

impl FromSpecImpl<&str> for EnvValue {
    /// A `String` is not determined by its characters in this model, so no
    /// equation for the whole result is claimed here; the `From` impl states
    /// the characters the resulting value holds.
    open spec fn obeys_from_spec() -> bool {
        false
    }

    open spec fn from_spec(s: &str) -> EnvValue {
        EnvValue::Bool(false)
    }
}

impl From<i64> for EnvValue {
    fn from(n: i64) -> (v: EnvValue)
        ensures
            v@ == ValueModel::Int(n),
    {
        EnvValue::Int(n)
    }
}

impl FromSpecImpl<i64> for EnvValue {
    open spec fn obeys_from_spec() -> bool {
        true
    }

    open spec fn from_spec(n: i64) -> EnvValue {
        EnvValue::Int(n)
    }
}

impl From<bool> for EnvValue {
    fn from(b: bool) -> (v: EnvValue)
        ensures
            v@ == ValueModel::Bool(b),
    {
        EnvValue::Bool(b)
    }
}

impl FromSpecImpl<bool> for EnvValue {
    open spec fn obeys_from_spec() -> bool {
        true
    }

    open spec fn from_spec(b: bool) -> EnvValue {
        EnvValue::Bool(b)
    }
}

} // verus!
