//! The typed side of the value model: the [`Value`] trait ties a concrete
//! property value type (`bool`, `u8`, or a string enumeration) to its erased
//! model, and [`ReflectValue`] is its erased counterpart, available for every
//! [`Value`] type. String enumerations come in through [`StrEnum`], whose
//! implementors declare an ordered variant list with pairwise distinct
//! labels.

use vstd::prelude::*;

use crate::text::{parse_bool, parse_bool_spec, parse_u8, parse_u8_spec, str_eq};
use crate::value::{ValueModel, ValueUntyped};

verus! {

/// The error of converting an erased value into a boolean: the value was not
/// a boolean.
#[derive(Clone, Copy, Debug, PartialEq, Eq, Structural, Default)]
pub struct ValueToBooleanError;

impl ValueToBooleanError {
    /// A human-readable description of the error.
    pub fn message(&self) -> &'static str {
        "expects a boolean value"
    }
}

/// The error of converting an erased value into an integer: the value was
/// not an integer.
#[derive(Clone, Copy, Debug, PartialEq, Eq, Structural, Default)]
pub struct ValueToIntegerError;

impl ValueToIntegerError {
    /// A human-readable description of the error.
    pub fn message(&self) -> &'static str {
        "expects an integral value"
    }
}

/// The error of converting an erased value into text: the value was not
/// text.
#[derive(Clone, Copy, Debug, PartialEq, Eq, Structural, Default)]
pub struct ValueToStringError;

impl ValueToStringError {
    /// A human-readable description of the error.
    pub fn message(&self) -> &'static str {
        "expects a string value"
    }
}

/// The error of converting an erased value into an enumeration value.
#[derive(Clone, Copy, Debug, PartialEq, Eq, Structural)]
pub enum ValueToEnumError {
    /// The erased value was not text at all.
    TryFromError(ValueToStringError),
    /// The erased value was text, but no variant carries that label.
    FromStrError,
}

impl ValueToEnumError {
    /// A human-readable description of the error.
    pub fn message(&self) -> &'static str {
        match self {
            ValueToEnumError::TryFromError(_) => "expects a string value",
            ValueToEnumError::FromStrError => "the string labels no variant",
        }
    }
}

/// An enumeration value that renders as a fixed string label. This is the
/// erased face of [`StrEnum`]: it exposes the label alone.
pub trait DynEnum: Sized {
    /// The label of this value.
    spec fn spec_label(&self) -> Seq<char>;

    /// Returns the label of this value.
    fn as_str(&self) -> (r: String)
        ensures
            r@ == self.spec_label(),
    ;
}

/// A closed enumeration usable as a block property domain: a fixed, ordered
/// list of at least two variants, each with its own label.
pub trait StrEnum: DynEnum + Copy {
    /// Every variant of the enumeration, in declaration order.
    spec fn spec_variants() -> Seq<Self>;

    /// The declaration is sound: at least two variants, every value of the
    /// type among them, and the label determines the value.
    proof fn lemma_variants()
        ensures
            2 <= Self::spec_variants().len(),
            forall|x: Self| Self::spec_variants().contains(x),
            forall|a: Self, b: Self| a.spec_label() == b.spec_label() ==> a == b,
    ;

    /// Returns every variant, in declaration order.
    fn values() -> (r: Vec<Self>)
        ensures
            r@ == Self::spec_variants(),
    ;
}

/// Two enumeration values with the same label are the same value.
pub proof fn lemma_strenum_label_injective<T: StrEnum>(a: T, b: T)
    requires
        a.spec_label() == b.spec_label(),
    ensures
        a == b,
{
    T::lemma_variants();
}

/// The erased model of an enumeration value: its label as text.
pub open spec fn strenum_model<T: StrEnum>(x: T) -> ValueModel {
    ValueModel::Text(x.spec_label())
}

/// Which enumeration value an erased model denotes: the variant carrying the
/// label, when the model is text and some variant does.
pub open spec fn strenum_of_model<T: StrEnum>(m: ValueModel) -> Option<T> {
    match m {
        ValueModel::Text(s) => if exists|x: T| x.spec_label() == s {
            Some(choose|x: T| x.spec_label() == s)
        } else {
            None
        },
        _ => None,
    }
}

/// An enumeration value survives the round trip through its erased model.
pub proof fn lemma_strenum_round_trip<T: StrEnum>(x: T)
    ensures
        strenum_of_model::<T>(strenum_model(x)) == Some(x),
{
    let s = x.spec_label();
    assert(exists|y: T| y.spec_label() == s) by {
        assert(x.spec_label() == s);
    }
    let y = choose|y: T| y.spec_label() == s;
    lemma_strenum_label_injective(x, y);
    assert(strenum_of_model::<T>(ValueModel::Text(s)) == Some(y));
}

/// A model accepted by [`strenum_of_model`] is the model of the value it
/// denotes.
pub proof fn lemma_strenum_of_model<T: StrEnum>(m: ValueModel)
    ensures
        strenum_of_model::<T>(m) matches Some(x) ==> strenum_model(x) == m,
{
}

/// Looks an enumeration value up by its label.
pub fn strenum_from_text<T: StrEnum>(s: &str) -> (r: Option<T>)
    ensures
        r == strenum_of_model::<T>(ValueModel::Text(s@)),
{
    let vals = T::values();
    let n = vals.len();
    let mut i: usize = 0;
    while i < n
        invariant
            n == vals.len(),
            vals@ == T::spec_variants(),
            i <= n,
            forall|j: int| 0 <= j < i ==> (#[trigger] vals@[j]).spec_label() != s@,
        decreases n - i,
    {
        let label = vals[i].as_str();
        if str_eq(label.as_str(), s) {
            let x = vals[i];
            proof {
                lemma_strenum_round_trip::<T>(x);
            }
            return Some(x);
        }
        i = i + 1;
    }
    proof {
        T::lemma_variants();
        if exists|x: T| x.spec_label() == s@ {
            let x = choose|x: T| x.spec_label() == s@;
            assert(T::spec_variants().contains(x));
        }
    }
    None
}

/// Converts an erased value into an enumeration value: the value must be
/// text, and the text must label a variant.
pub fn strenum_from_value<T: StrEnum>(value: &ValueUntyped) -> (r: Result<T, ValueToEnumError>)
    ensures
        r matches Ok(x) ==> strenum_of_model::<T>(value@) == Some(x),
        r is Err ==> strenum_of_model::<T>(value@) is None,
        r == Err::<T, _>(ValueToEnumError::TryFromError(ValueToStringError)) <==> !(value@
            is Text),
    {
    match value {
        ValueUntyped::Text(s) => match strenum_from_text::<T>(s.as_str()) {
            Some(x) => Ok(x),
            None => Err(ValueToEnumError::FromStrError),
        },
        _ => Err(ValueToEnumError::TryFromError(ValueToStringError)),
    }
}

/// A concrete block property value type: `bool`, `u8`, or a [`StrEnum`]
/// enumeration. The trait ties the type to its erased model, and every
/// conversion in the crate is stated against that model.
pub trait Value: Sized + Copy {
    /// The error of [`Value::from_value`].
    type FromValError;

    /// The erased model of this value.
    spec fn model(self) -> ValueModel;

    /// Which value of this type an erased model denotes, if any.
    spec fn of_model(m: ValueModel) -> Option<Self>;

    /// Which value of this type a string parses to, if any.
    spec fn parse_spec(s: Seq<char>) -> Option<Self>;

    /// A value survives the round trip through its erased model.
    proof fn lemma_model_round_trip(x: Self)
        ensures
            Self::of_model(x.model()) == Some(x),
    ;

    /// A model accepted by [`Value::of_model`] is the model of the value it
    /// denotes.
    proof fn lemma_of_model(m: ValueModel)
        ensures
            Self::of_model(m) matches Some(x) ==> x.model() == m,
    ;

    /// Converts an erased value into this type; fails exactly when the model
    /// denotes no value of this type.
    fn from_value(value: &ValueUntyped) -> (r: Result<Self, Self::FromValError>)
        ensures
            r matches Ok(x) ==> Self::of_model(value@) == Some(x),
            r is Err ==> Self::of_model(value@) is None,
    ;

    /// Converts this value into its erased form.
    fn into_value(self) -> (r: ValueUntyped)
        ensures
            r@ == self.model(),
    ;

    /// Parses a string into this type, accepting exactly what
    /// [`Value::parse_spec`] accepts.
    fn from_text(s: &str) -> (r: Option<Self>)
        ensures
            r == Self::parse_spec(s@),
    ;

    /// Compares two values of this type.
    fn eq_value(&self, other: &Self) -> (r: bool)
        ensures
            r == (*self == *other),
    ;

    /// The name of this value kind, for diagnostics: `"boolean"`,
    /// `"integer"` or `"enum"`.
    fn kind_name() -> &'static str;
}

/// Two values with the same erased model are the same value.
pub proof fn lemma_value_model_injective<T: Value>(a: T, b: T)
    requires
        a.model() == b.model(),
    ensures
        a == b,
{
    T::lemma_model_round_trip(a);
    T::lemma_model_round_trip(b);
}

impl Value for bool {
    type FromValError = ValueToBooleanError;

    open spec fn model(self) -> ValueModel {
        ValueModel::Boolean(self)
    }

    open spec fn of_model(m: ValueModel) -> Option<bool> {
        match m {
            ValueModel::Boolean(b) => Some(b),
            _ => None,
        }
    }

    open spec fn parse_spec(s: Seq<char>) -> Option<bool> {
        parse_bool_spec(s)
    }

    proof fn lemma_model_round_trip(x: bool) {
    }

    proof fn lemma_of_model(m: ValueModel) {
    }

    fn from_value(value: &ValueUntyped) -> (r: Result<bool, ValueToBooleanError>) {
        match value {
            ValueUntyped::Boolean(b) => Ok(*b),
            _ => Err(ValueToBooleanError),
        }
    }

    fn into_value(self) -> (r: ValueUntyped) {
        ValueUntyped::Boolean(self)
    }

    fn from_text(s: &str) -> (r: Option<bool>) {
        parse_bool(s)
    }

    fn eq_value(&self, other: &Self) -> (r: bool) {
        *self == *other
    }

    fn kind_name() -> &'static str {
        "boolean"
    }
}

impl Value for u8 {
    type FromValError = ValueToIntegerError;

    open spec fn model(self) -> ValueModel {
        ValueModel::Integer(self)
    }

    open spec fn of_model(m: ValueModel) -> Option<u8> {
        match m {
            ValueModel::Integer(n) => Some(n),
            _ => None,
        }
    }

    open spec fn parse_spec(s: Seq<char>) -> Option<u8> {
        parse_u8_spec(s)
    }

    proof fn lemma_model_round_trip(x: u8) {
    }

    proof fn lemma_of_model(m: ValueModel) {
    }

    fn from_value(value: &ValueUntyped) -> (r: Result<u8, ValueToIntegerError>) {
        match value {
            ValueUntyped::Integer(n) => Ok(*n),
            _ => Err(ValueToIntegerError),
        }
    }

    fn into_value(self) -> (r: ValueUntyped) {
        ValueUntyped::Integer(self)
    }

    fn from_text(s: &str) -> (r: Option<u8>) {
        parse_u8(s)
    }

    fn eq_value(&self, other: &Self) -> (r: bool) {
        *self == *other
    }

    fn kind_name() -> &'static str {
        "integer"
    }
}

/// The erased face of a [`Value`] type, available for every such type: the
/// same conversions, with values exchanged in erased form.
pub trait ReflectValue: Sized {
    /// The erased model of this value.
    spec fn spec_model(&self) -> ValueModel;

    /// Which value of this type an erased model denotes, if any.
    spec fn spec_of_model(m: ValueModel) -> Option<Self>;

    /// Which value of this type a string parses to, if any.
    spec fn spec_parse(s: Seq<char>) -> Option<Self>;

    /// Renders the value as its canonical string.
    fn as_str(&self) -> (r: String)
        ensures
            r@ == self.spec_model().to_text(),
    ;

    /// Returns the value in erased form.
    fn untyped(&self) -> (r: ValueUntyped)
        ensures
            r@ == self.spec_model(),
    ;

    /// Compares two values of this type.
    fn dyn_eq(&self, other: &Self) -> (r: bool)
        ensures
            r == (self.spec_model() == other.spec_model()),
    ;

    /// Parses a string and assigns the parsed value to `self`; on failure
    /// `self` is unchanged.
    fn dyn_from_str(&mut self, other: &str) -> (r: bool)
        ensures
            match Self::spec_parse(other@) {
                Some(v) => r && *final(self) == v,
                None => !r && *final(self) == *old(self),
            },
    ;

    /// Converts an erased value and assigns it to `self`; on failure `self`
    /// is unchanged.
    fn dyn_from_value(&mut self, other: &ValueUntyped) -> (r: bool)
        ensures
            match Self::spec_of_model(other@) {
                Some(v) => r && *final(self) == v,
                None => !r && *final(self) == *old(self),
            },
    ;
}

impl<T: Value> ReflectValue for T {
    open spec fn spec_model(&self) -> ValueModel {
        (*self).model()
    }

    open spec fn spec_of_model(m: ValueModel) -> Option<T> {
        T::of_model(m)
    }

    open spec fn spec_parse(s: Seq<char>) -> Option<T> {
        T::parse_spec(s)
    }

    fn as_str(&self) -> (r: String) {
        (*self).into_value().as_str()
    }

    fn untyped(&self) -> (r: ValueUntyped) {
        (*self).into_value()
    }

    fn dyn_eq(&self, other: &Self) -> (r: bool) {
        let r = self.eq_value(other);
        proof {
            if self.spec_model() == other.spec_model() {
                lemma_value_model_injective(*self, *other);
            }
        }
        r
    }

    fn dyn_from_str(&mut self, other: &str) -> (r: bool) {
        match T::from_text(other) {
            Some(v) => {
                *self = v;
                true
            },
            None => false,
        }
    }

    fn dyn_from_value(&mut self, other: &ValueUntyped) -> (r: bool) {
        match T::from_value(other) {
            Ok(v) => {
                *self = v;
                true
            },
            Err(_) => false,
        }
    }
}

impl ValueUntyped {
    /// Converts the erased value into the given concrete type; fails exactly
    /// when this value's model denotes no value of that type.
    pub fn typed<T: Value>(&self) -> (r: Result<T, T::FromValError>)
        ensures
            r matches Ok(x) ==> T::of_model(self@) == Some(x),
            r is Err ==> T::of_model(self@) is None,
    {
        T::from_value(self)
    }
}

} // verus!
