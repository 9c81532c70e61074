//! The type-erased block property value: a boolean, a byte-sized integer, or
//! the text label of an enumeration variant.
//!
//! Parsing a bare string tries the kinds in a fixed priority order — boolean,
//! then integer, then text — so a string such as `"5"` always becomes an
//! integer, never an enum label. That order is part of the contract: state
//! serialization depends on it.

use vstd::prelude::*;

use crate::text::{
    dec_rep, parse_bool, parse_bool_spec, parse_u8, parse_u8_spec, str_eq, u8_to_str,
};

verus! {

/// The mathematical model of a type-erased value: what the value is, with
/// text as a sequence of characters.
pub enum ValueModel {
    /// A boolean value.
    Boolean(bool),
    /// An integer value, `0` to `255`.
    Integer(u8),
    /// The text label of an enumeration value.
    Text(Seq<char>),
}

impl ValueModel {
    /// The canonical string rendering of the modelled value: `"true"` or
    /// `"false"` for booleans, the decimal digits for integers, the label
    /// itself for text.
    pub open spec fn to_text(self) -> Seq<char> {
        match self {
            ValueModel::Boolean(b) => if b {
                "true"@
            } else {
                "false"@
            },
            ValueModel::Integer(n) => dec_rep(n as nat),
            ValueModel::Text(s) => s,
        }
    }
}

/// What model a bare string parses to, in the load-bearing priority order:
/// boolean first, then integer, then text.
pub open spec fn parse_value_spec(s: Seq<char>) -> ValueModel {
    match parse_bool_spec(s) {
        Some(b) => ValueModel::Boolean(b),
        None => match parse_u8_spec(s) {
            Some(n) => ValueModel::Integer(n),
            None => ValueModel::Text(s),
        },
    }
}

/// A type-erased block property value: either a boolean, an integer, or the
/// text label of an enumeration variant.
#[derive(Clone, Debug, PartialEq, Eq)]
pub enum ValueUntyped {
    /// A boolean value of a block state property.
    Boolean(bool),
    /// An integral value of a block state property.
    Integer(u8),
    /// The label of an enum value of a block state property.
    Text(String),
}

impl View for ValueUntyped {
    type V = ValueModel;

    open spec fn view(&self) -> ValueModel {
        match self {
            ValueUntyped::Boolean(b) => ValueModel::Boolean(*b),
            ValueUntyped::Integer(n) => ValueModel::Integer(*n),
            ValueUntyped::Text(s) => ValueModel::Text(s@),
        }
    }
}

impl ValueUntyped {
    /// Compares two erased values by kind and content.
    pub fn eq_untyped(&self, other: &ValueUntyped) -> (r: bool)
        ensures
            r == (self@ == other@),
    {
        match (self, other) {
            (ValueUntyped::Boolean(a), ValueUntyped::Boolean(b)) => {
                proof {
                    assert(self@ == ValueModel::Boolean(*a));
                    assert(other@ == ValueModel::Boolean(*b));
                }
                *a == *b
            },
            (ValueUntyped::Integer(a), ValueUntyped::Integer(b)) => {
                proof {
                    assert(self@ == ValueModel::Integer(*a));
                    assert(other@ == ValueModel::Integer(*b));
                }
                *a == *b
            },
            (ValueUntyped::Text(a), ValueUntyped::Text(b)) => {
                let r = str_eq(a.as_str(), b.as_str());
                proof {
                    assert(self@ == ValueModel::Text(a@));
                    assert(other@ == ValueModel::Text(b@));
                }
                r
            },
            (ValueUntyped::Boolean(_), ValueUntyped::Integer(_)) => false,
            (ValueUntyped::Boolean(_), ValueUntyped::Text(_)) => false,
            (ValueUntyped::Integer(_), ValueUntyped::Boolean(_)) => false,
            (ValueUntyped::Integer(_), ValueUntyped::Text(_)) => false,
            (ValueUntyped::Text(_), ValueUntyped::Boolean(_)) => false,
            (ValueUntyped::Text(_), ValueUntyped::Integer(_)) => false,
        }
    }

    /// Parses the given string into an erased value, trying the kinds in
    /// priority order: `"true"`/`"false"` become booleans, decimal numerals
    /// up to `255` become integers, everything else becomes text.
    pub fn from_borrowed_str(s: &str) -> (r: ValueUntyped)
        ensures
            r@ == parse_value_spec(s@),
    {
        if let Some(b) = parse_bool(s) {
            ValueUntyped::Boolean(b)
        } else if let Some(n) = parse_u8(s) {
            ValueUntyped::Integer(n)
        } else {
            ValueUntyped::Text(String::from_str(s))
        }
    }

    /// Returns the same value, with its text owned. The erased value always
    /// owns its text, so nothing changes.
    pub fn upgrade(self) -> (r: ValueUntyped)
        ensures
            r@ == self@,
    {
        self
    }

    /// Returns a copy of the value. The erased value always owns its text,
    /// so the copy is content-equal to the original.
    pub fn downgrade(&self) -> (r: ValueUntyped)
        ensures
            r@ == self@,
    {
        match self {
            ValueUntyped::Boolean(b) => ValueUntyped::Boolean(*b),
            ValueUntyped::Integer(n) => ValueUntyped::Integer(*n),
            ValueUntyped::Text(s) => ValueUntyped::Text(s.clone()),
        }
    }

    /// Renders the value as its canonical string: `"true"`/`"false"`,
    /// decimal digits, or the text label itself.
    pub fn as_str(&self) -> (r: String)
        ensures
            r@ == self@.to_text(),
    {
        match self {
            ValueUntyped::Boolean(b) => {
                if *b {
                    String::from_str("true")
                } else {
                    String::from_str("false")
                }
            },
            ValueUntyped::Integer(n) => u8_to_str(*n),
            ValueUntyped::Text(s) => s.clone(),
        }
    }

    /// Returns the boolean inside the value, or `None` if the value is not a
    /// boolean.
    pub fn bool_or_none(&self) -> (r: Option<bool>)
        ensures
            r == match self@ {
                ValueModel::Boolean(b) => Some(b),
                _ => None::<bool>,
            },
    {
        if let ValueUntyped::Boolean(b) = self {
            Some(*b)
        } else {
            None
        }
    }

    /// Returns the integer inside the value, or `None` if the value is not
    /// an integer.
    pub fn int_or_none(&self) -> (r: Option<u8>)
        ensures
            r == match self@ {
                ValueModel::Integer(n) => Some(n),
                _ => None::<u8>,
            },
    {
        if let ValueUntyped::Integer(n) = self {
            Some(*n)
        } else {
            None
        }
    }

    /// Returns the text inside the value, or `None` if the value is not
    /// text.
    pub fn str_or_none(&self) -> (r: Option<&str>)
        ensures
            match r {
                Some(s) => self@ == ValueModel::Text(s@),
                None => !(self@ is Text),
            },
    {
        if let ValueUntyped::Text(s) = self {
            Some(s.as_str())
        } else {
            None
        }
    }

    /// Applies `f` to the boolean inside the value; `None` if the value is
    /// not a boolean.
    pub fn bool_and_then<R, F: FnOnce(bool) -> R>(&self, f: F) -> (r: Option<R>)
        requires
            forall|b: bool| self@ == ValueModel::Boolean(b) ==> f.requires((b,)),
        ensures
            match self@ {
                ValueModel::Boolean(b) => r matches Some(y) && f.ensures((b,), y),
                _ => r is None,
            },
    {
        if let ValueUntyped::Boolean(b) = self {
            Some(f(*b))
        } else {
            None
        }
    }

    /// Applies `f` to the integer inside the value; `None` if the value is
    /// not an integer.
    pub fn int_and_then<R, F: FnOnce(u8) -> R>(&self, f: F) -> (r: Option<R>)
        requires
            forall|n: u8| self@ == ValueModel::Integer(n) ==> f.requires((n,)),
        ensures
            match self@ {
                ValueModel::Integer(n) => r matches Some(y) && f.ensures((n,), y),
                _ => r is None,
            },
    {
        if let ValueUntyped::Integer(n) = self {
            Some(f(*n))
        } else {
            None
        }
    }

    /// Applies `f` to the text inside the value; `None` if the value is not
    /// text.
    pub fn str_and_then<'a, R, F: FnOnce(&'a str) -> R>(&'a self, f: F) -> (r: Option<R>)
        requires
            forall|s: &'a str| self@ == ValueModel::Text(s@) ==> f.requires((s,)),
        ensures
            match r {
                Some(y) => self@ is Text && (exists|s: &'a str|
                    self@ == ValueModel::Text(s@) && f.ensures((s,), y)),
                None => !(self@ is Text),
            },
    {
        if let ValueUntyped::Text(s) = self {
            Some(f(s.as_str()))
        } else {
            None
        }
    }

    /// Returns the boolean inside the value, or the result of `f` as the
    /// error.
    pub fn bool_or_else<R, F: FnOnce() -> R>(&self, f: F) -> (r: Result<bool, R>)
        requires
            !(self@ is Boolean) ==> f.requires(()),
        ensures
            match self@ {
                ValueModel::Boolean(b) => r == Ok::<bool, R>(b),
                _ => r matches Err(y) && f.ensures((), y),
            },
    {
        if let ValueUntyped::Boolean(b) = self {
            Ok(*b)
        } else {
            Err(f())
        }
    }

    /// Returns the integer inside the value, or the result of `f` as the
    /// error.
    pub fn int_or_else<R, F: FnOnce() -> R>(&self, f: F) -> (r: Result<u8, R>)
        requires
            !(self@ is Integer) ==> f.requires(()),
        ensures
            match self@ {
                ValueModel::Integer(n) => r == Ok::<u8, R>(n),
                _ => r matches Err(y) && f.ensures((), y),
            },
    {
        if let ValueUntyped::Integer(n) = self {
            Ok(*n)
        } else {
            Err(f())
        }
    }

    /// Returns the text inside the value, or the result of `f` as the error.
    pub fn str_or_else<R, F: FnOnce() -> R>(&self, f: F) -> (r: Result<&str, R>)
        requires
            !(self@ is Text) ==> f.requires(()),
        ensures
            match r {
                Ok(s) => self@ == ValueModel::Text(s@),
                Err(y) => !(self@ is Text) && f.ensures((), y),
            },
    {
        if let ValueUntyped::Text(s) = self {
            Ok(s.as_str())
        } else {
            Err(f())
        }
    }
}

/// Boolean and integer parses never overlap: no string is both a boolean and
/// a numeral, so the parse priority of [`ValueUntyped::from_borrowed_str`]
/// is unambiguous, and a decimal numeral such as `"5"` always parses to the
/// integer it denotes — never to text, even when an enum declares a variant
/// labelled with the same digits.
pub proof fn lemma_parse_priority(s: Seq<char>)
    ensures
        parse_bool_spec(s) is Some ==> parse_value_spec(s) == ValueModel::Boolean(
            parse_bool_spec(s)->Some_0,
        ),
        parse_u8_spec(s) matches Some(n) ==> parse_value_spec(s) == ValueModel::Integer(n),
        parse_bool_spec(s) is None && parse_u8_spec(s) is None ==> parse_value_spec(s)
            == ValueModel::Text(s),
{
    if parse_u8_spec(s) is Some {
        reveal_strlit("true");
        reveal_strlit("false");
        if s == "true"@ {
            assert(!crate::text::is_digit(s[0]) && s[0] != '+');
        }
        if s == "false"@ {
            assert(!crate::text::is_digit(s[0]) && s[0] != '+');
        }
        assert(parse_bool_spec(s) is None);
    }
}

} // verus!
