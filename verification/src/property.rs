//! Block state properties: a named, ordered, finite domain of values of one
//! kind. [`Property<T>`] is the typed form; [`PropertyDef`] is its erased
//! form, with the domain as erased values; [`ReflectProperty`] is the
//! interface the two share.
//!
//! [`Property::cast`] converts an erased value against the property's
//! domain and always hands back the domain's own element, so casting is
//! stable: casting a cast result returns the same element again.

use vstd::prelude::*;

use crate::dynamic::CastError;
use crate::strenum::{StrEnum, Value};
use crate::text::str_eq;
use crate::value::{ValueModel, ValueUntyped};

verus! {

/// The erased models of a sequence of erased values.
pub open spec fn values_model(s: Seq<ValueUntyped>) -> Seq<ValueModel> {
    s.map_values(|v: ValueUntyped| v@)
}

/// The model of a property: its key and the models of its domain, in domain
/// order.
pub struct PropertyModel {
    /// The property key.
    pub key: Seq<char>,
    /// The models of the domain elements, in order.
    pub domain: Seq<ValueModel>,
}

/// The error of constructing a property with fewer than two domain values.
#[derive(Clone, Copy, Debug, PartialEq, Eq, Structural, Default)]
pub struct PropertyError;

impl PropertyError {
    /// A human-readable description of the error.
    pub fn message(&self) -> &'static str {
        "the property expects at least 2 values"
    }
}

/// A block state property with the values of type `T`: a key and an
/// ordered domain of at least two values.
#[derive(Debug)]
pub struct Property<T> {
    /// The key of the property, unique within one state type.
    key: String,
    /// The ordered domain of the property.
    range: Vec<T>,
}

impl<T: Value> Property<T> {
    /// The key of the property.
    pub closed spec fn spec_key(self) -> Seq<char> {
        self.key@
    }

    /// The ordered domain of the property.
    pub closed spec fn spec_range(self) -> Seq<T> {
        self.range@
    }

    /// The erased models of the domain, in domain order.
    pub open spec fn spec_domain(self) -> Seq<ValueModel> {
        self.spec_range().map_values(|x: T| x.model())
    }

    /// What [`Property::cast`] returns on a value with model `m`: the domain
    /// element that `m` denotes, if `m` denotes a value of type `T` and that
    /// value is in the domain.
    pub open spec fn spec_cast(self, m: ValueModel) -> Option<T> {
        match T::of_model(m) {
            Some(x) => if self.spec_range().contains(x) {
                Some(x)
            } else {
                None
            },
            None => None,
        }
    }

    /// Returns the ordered domain of the property.
    pub fn range(&self) -> (r: &Vec<T>)
        ensures
            r@ == self.spec_range(),
    {
        &self.range
    }

    /// Returns a copy of the domain, in order, to iterate over.
    pub fn iter(&self) -> (r: Vec<T>)
        ensures
            r@ == self.spec_range(),
    {
        let n = self.range.len();
        let mut r: Vec<T> = Vec::new();
        let mut i: usize = 0;
        while i < n
            invariant
                n == self.range@.len(),
                i <= n,
                r@ == self.range@.take(i as int),
            decreases n - i,
        {
            r.push(self.range[i]);
            proof {
                assert(r@ =~= self.range@.take(i + 1));
            }
            i = i + 1;
        }
        proof {
            assert(self.range@.take(n as int) =~= self.range@);
        }
        r
    }

    /// Returns whether the domain holds the given value.
    pub fn contains(&self, value: &T) -> (r: bool)
        ensures
            r == self.spec_range().contains(*value),
    {
        let n = self.range.len();
        let mut i: usize = 0;
        while i < n
            invariant
                n == self.range@.len(),
                i <= n,
                forall|j: int| 0 <= j < i ==> self.range@[j] != *value,
            decreases n - i,
        {
            if self.range[i].eq_value(value) {
                return true;
            }
            i = i + 1;
        }
        false
    }

    /// Converts an erased value against the domain: the result is the
    /// domain's own element, so equal inputs always yield the same element.
    /// Returns `None` when the value is of the wrong kind or outside the
    /// domain.
    pub fn cast(&self, value: &ValueUntyped) -> (r: Option<T>)
        ensures
            r == self.spec_cast(value@),
    {
        match T::from_value(value) {
            Ok(x) => {
                let n = self.range.len();
                let mut i: usize = 0;
                while i < n
                    invariant
                        n == self.range@.len(),
                        i <= n,
                        T::of_model(value@) == Some(x),
                        forall|j: int| 0 <= j < i ==> self.range@[j] != x,
                    decreases n - i,
                {
                    if self.range[i].eq_value(&x) {
                        proof {
                            assert(self.spec_range()[i as int] == x);
                            assert(self.spec_range().contains(x));
                        }
                        return Some(self.range[i]);
                    }
                    i = i + 1;
                }
                None
            },
            Err(_) => None,
        }
    }

    /// Erases the property: the same key, the domain as erased values.
    pub fn erased(&self) -> (r: PropertyDef)
        ensures
            r@.key == self.spec_key(),
            r@.domain == self.spec_domain(),
    {
        let n = self.range.len();
        let mut domain: Vec<ValueUntyped> = Vec::new();
        let mut i: usize = 0;
        while i < n
            invariant
                n == self.range@.len(),
                i <= n,
                domain@.len() == i,
                forall|j: int| 0 <= j < i ==> domain@[j]@ == (#[trigger] self.range@[j]).model(),
            decreases n - i,
        {
            domain.push(self.range[i].into_value());
            i = i + 1;
        }
        let r = PropertyDef { key: self.key.clone(), domain };
        proof {
            assert(r@.domain =~= self.spec_domain());
        }
        r
    }
}

impl Property<bool> {
    /// Returns the boolean property with the given key; the domain is
    /// always `[false, true]`, in that order.
    pub fn boolean(key: &str) -> (r: Property<bool>)
        ensures
            r.spec_key() == key@,
            r.spec_range() == seq![false, true],
    {
        let range = vec![false, true];
        proof {
            assert(range@ =~= seq![false, true]);
        }
        Property { key: String::from_str(key), range }
    }
}

/// The domain of an integer property with the half-open range
/// `[start, end)`, in ascending order.
pub open spec fn integer_domain(start: u8, end: u8) -> Seq<u8> {
    Seq::new(
        if start <= end {
            (end - start) as nat
        } else {
            0
        },
        |i: int| (start + i) as u8,
    )
}

impl Property<u8> {
    /// Returns the integer property with the given key and the domain
    /// `[range.start, range.end)`. Fails exactly when the range holds fewer
    /// than two values.
    pub fn integer(key: &str, range: core::ops::Range<u8>) -> (r: Result<Property<u8>, PropertyError>)
        ensures
            r is Ok <==> range.start + 2 <= range.end,
            r matches Ok(p) ==> p.spec_key() == key@ && p.spec_range() == integer_domain(
                range.start,
                range.end,
            ),
    {
        let start = range.start;
        let end = range.end;
        if start >= end || end - start < 2 {
            return Err(PropertyError);
        }
        let mut v: Vec<u8> = Vec::new();
        let mut x = start;
        while x < end
            invariant
                start <= x <= end,
                v@.len() == x - start,
                forall|i: int| 0 <= i < v@.len() ==> v@[i] == start + i,
            decreases end - x,
        {
            v.push(x);
            x = x + 1;
        }
        proof {
            assert(v@ =~= integer_domain(start, end));
        }
        Ok(Property { key: String::from_str(key), range: v })
    }
}

impl<T: StrEnum + Value> Property<T> {
    /// Returns the enum property with the given key; the domain is every
    /// variant of `T`, in declaration order.
    pub fn enums(key: &str) -> (r: Property<T>)
        ensures
            r.spec_key() == key@,
            r.spec_range() == T::spec_variants(),
            r.spec_range().len() >= 2,
    {
        proof {
            T::lemma_variants();
        }
        Property { key: String::from_str(key), range: T::values() }
    }

    /// Returns the enum property with the given key and a caller-chosen
    /// ordered subset of variants as the domain. Fails exactly when the
    /// subset holds fewer than two values.
    pub fn enums_with(key: &str, range: Vec<T>) -> (r: Result<Property<T>, PropertyError>)
        ensures
            r is Ok <==> range@.len() >= 2,
            r matches Ok(p) ==> p.spec_key() == key@ && p.spec_range() == range@,
    {
        if range.len() < 2 {
            Err(PropertyError)
        } else {
            Ok(Property { key: String::from_str(key), range })
        }
    }
}

impl<T: Value> PartialEq for Property<T> {
    /// Properties compare by key alone: two properties with the same key
    /// stand for the same axis of variation.
    fn eq(&self, other: &Self) -> (r: bool) {
        str_eq(self.key.as_str(), other.key.as_str())
    }
}

impl<T: Value> Eq for Property<T> {

}

impl<T: Value> vstd::std_specs::cmp::PartialEqSpecImpl for Property<T> {
    open spec fn obeys_eq_spec() -> bool {
        true
    }

    open spec fn eq_spec(&self, other: &Self) -> bool {
        self.spec_key() == other.spec_key()
    }
}

/// A type-erased property: the key, and the domain as erased values.
#[derive(Debug)]
pub struct PropertyDef {
    /// The key of the property.
    key: String,
    /// The ordered domain, erased.
    domain: Vec<ValueUntyped>,
}

impl View for PropertyDef {
    type V = PropertyModel;

    closed spec fn view(&self) -> PropertyModel {
        PropertyModel { key: self.key@, domain: values_model(self.domain@) }
    }
}

impl PropertyDef {
    /// Builds an erased property from a key and an erased domain.
    pub fn new(key: &str, domain: Vec<ValueUntyped>) -> (r: PropertyDef)
        ensures
            r@.key == key@,
            r@.domain == values_model(domain@),
    {
        PropertyDef { key: String::from_str(key), domain }
    }

    /// Returns the domain element at the given position.
    pub fn value_at(&self, i: usize) -> (r: ValueUntyped)
        requires
            i < self@.domain.len(),
        ensures
            r@ == self@.domain[i as int],
    {
        self.domain[i].downgrade()
    }

    /// Recovers the typed property, if every domain value is of kind `T`.
    /// Fails with a [`CastError`] naming the requested kind otherwise —
    /// never a reinterpretation.
    pub fn downcast<T: Value>(&self) -> (r: Result<Property<T>, CastError>)
        ensures
            r matches Ok(p) ==> p.spec_key() == self@.key && p.spec_domain() == self@.domain,
            r is Ok <==> forall|i: int|
                0 <= i < self@.domain.len() ==> T::of_model(#[trigger] self@.domain[i]) is Some,
    {
        let n = self.domain.len();
        let mut range: Vec<T> = Vec::new();
        let mut i: usize = 0;
        while i < n
            invariant
                n == self.domain@.len(),
                i <= n,
                range@.len() == i,
                forall|j: int|
                    0 <= j < i ==> T::of_model(#[trigger] self.domain@[j]@) == Some(range@[j]),
            decreases n - i,
        {
            match T::from_value(&self.domain[i]) {
                Ok(x) => {
                    range.push(x);
                },
                Err(_) => {
                    proof {
                        assert(T::of_model(self@.domain[i as int]) is None);
                    }
                    return Err(CastError { src: "property", dst: T::kind_name() });
                },
            }
            i = i + 1;
        }
        let p = Property::<T> { key: self.key.clone(), range };
        proof {
            assert forall|j: int| 0 <= j < n implies p.spec_domain()[j] == self@.domain[j] by {
                T::lemma_of_model(self.domain@[j]@);
            }
            assert(p.spec_domain() =~= self@.domain);
        }
        Ok(p)
    }
}

impl PartialEq for PropertyDef {
    /// Erased properties compare by key alone, as typed properties do.
    fn eq(&self, other: &Self) -> (r: bool) {
        str_eq(self.key.as_str(), other.key.as_str())
    }
}

impl Eq for PropertyDef {

}

impl vstd::std_specs::cmp::PartialEqSpecImpl for PropertyDef {
    open spec fn obeys_eq_spec() -> bool {
        true
    }

    open spec fn eq_spec(&self, other: &Self) -> bool {
        self@.key == other@.key
    }
}

/// The interface a property presents once its value type is erased: the
/// key, the domain size, and the domain operations over erased values.
/// Implemented by [`Property<T>`] and by [`PropertyDef`] itself.
pub trait ReflectProperty: Sized {
    /// The model of the property: key and erased domain.
    spec fn spec_prop(&self) -> PropertyModel;

    /// Returns the key of the property.
    fn key(&self) -> (r: &str)
        ensures
            r@ == self.spec_prop().key,
    ;

    /// Returns the number of domain elements.
    fn len(&self) -> (r: usize)
        ensures
            r == self.spec_prop().domain.len(),
    ;

    /// Returns whether the two properties have the same key: property
    /// identity is the key.
    fn dyn_eq(&self, other: &Self) -> (r: bool)
        ensures
            r == (self.spec_prop().key == other.spec_prop().key),
    ;

    /// Returns the domain as erased values, in domain order.
    fn dyn_iter(&self) -> (r: Vec<ValueUntyped>)
        ensures
            values_model(r@) == self.spec_prop().domain,
    ;

    /// Returns whether the domain holds a value with the given model.
    fn dyn_contains(&self, value: &ValueUntyped) -> (r: bool)
        ensures
            r == self.spec_prop().domain.contains(value@),
    ;

    /// Converts an erased value against the domain: on success the result
    /// has the same model as the input and lies in the domain.
    fn dyn_cast(&self, value: &ValueUntyped) -> (r: Option<ValueUntyped>)
        ensures
            match r {
                Some(w) => self.spec_prop().domain.contains(value@) && w@ == value@,
                None => !self.spec_prop().domain.contains(value@),
            },
    ;
}

/// The erased domain of a typed property holds `m` exactly when `m` denotes
/// a value of the property's type that lies in the typed domain.
pub proof fn lemma_domain_contains<T: Value>(p: Property<T>, m: ValueModel)
    ensures
        p.spec_domain().contains(m) <==> (T::of_model(m) matches Some(x) && p.spec_range()
            .contains(x)),
{
    if p.spec_domain().contains(m) {
        let i = choose|i: int| 0 <= i < p.spec_domain().len() && p.spec_domain()[i] == m;
        assert(p.spec_range()[i].model() == m);
        T::lemma_model_round_trip(p.spec_range()[i]);
        assert(p.spec_range().contains(p.spec_range()[i]));
    }
    if T::of_model(m) matches Some(x) && p.spec_range().contains(x) {
        let x = T::of_model(m)->Some_0;
        T::lemma_of_model(m);
        let i = choose|i: int| 0 <= i < p.spec_range().len() && p.spec_range()[i] == x;
        assert(p.spec_domain()[i] == m);
        assert(p.spec_domain().contains(m));
    }
}

impl<T: Value> ReflectProperty for Property<T> {
    open spec fn spec_prop(&self) -> PropertyModel {
        PropertyModel { key: self.spec_key(), domain: self.spec_domain() }
    }

    fn key(&self) -> (r: &str) {
        self.key.as_str()
    }

    fn len(&self) -> (r: usize) {
        self.range.len()
    }

    fn dyn_eq(&self, other: &Self) -> (r: bool) {
        str_eq(self.key.as_str(), other.key.as_str())
    }

    fn dyn_iter(&self) -> (r: Vec<ValueUntyped>) {
        let r = self.erased();
        let PropertyDef { key: _, domain } = r;
        domain
    }

    fn dyn_contains(&self, value: &ValueUntyped) -> (r: bool) {
        proof {
            lemma_domain_contains(*self, value@);
        }
        match T::from_value(value) {
            Ok(x) => self.contains(&x),
            Err(_) => false,
        }
    }

    fn dyn_cast(&self, value: &ValueUntyped) -> (r: Option<ValueUntyped>) {
        proof {
            lemma_domain_contains(*self, value@);
            if T::of_model(value@) is Some {
                T::lemma_of_model(value@);
            }
        }
        match self.cast(value) {
            Some(x) => Some(x.into_value()),
            None => None,
        }
    }
}

impl ReflectProperty for PropertyDef {
    open spec fn spec_prop(&self) -> PropertyModel {
        self@
    }

    fn key(&self) -> (r: &str) {
        let r = self.key.as_str();
        proof {
            assert(r@ == self.key@);
            assert(self.spec_prop().key == self.key@);
        }
        r
    }

    fn len(&self) -> (r: usize) {
        self.domain.len()
    }

    fn dyn_eq(&self, other: &Self) -> (r: bool) {
        str_eq(self.key.as_str(), other.key.as_str())
    }

    fn dyn_iter(&self) -> (r: Vec<ValueUntyped>) {
        let n = self.domain.len();
        let mut r: Vec<ValueUntyped> = Vec::new();
        let mut i: usize = 0;
        while i < n
            invariant
                n == self.domain@.len(),
                i <= n,
                r@.len() == i,
                forall|j: int| 0 <= j < i ==> r@[j]@ == (#[trigger] self.domain@[j])@,
            decreases n - i,
        {
            r.push(self.domain[i].downgrade());
            i = i + 1;
        }
        proof {
            assert(values_model(r@) =~= self@.domain);
        }
        r
    }

    fn dyn_contains(&self, value: &ValueUntyped) -> (r: bool) {
        let n = self.domain.len();
        let mut i: usize = 0;
        while i < n
            invariant
                n == self.domain@.len(),
                i <= n,
                forall|j: int| 0 <= j < i ==> (#[trigger] self.domain@[j])@ != value@,
            decreases n - i,
        {
            if value.eq_untyped(&self.domain[i]) {
                proof {
                    assert(self@.domain[i as int] == value@);
                }
                return true;
            }
            i = i + 1;
        }
        proof {
            if self@.domain.contains(value@) {
                let i = choose|i: int|
                    0 <= i < self@.domain.len() && self@.domain[i] == value@;
                assert(self.domain@[i]@ == value@);
            }
        }
        false
    }

    fn dyn_cast(&self, value: &ValueUntyped) -> (r: Option<ValueUntyped>) {
        let n = self.domain.len();
        let mut i: usize = 0;
        while i < n
            invariant
                n == self.domain@.len(),
                i <= n,
                forall|j: int| 0 <= j < i ==> (#[trigger] self.domain@[j])@ != value@,
            decreases n - i,
        {
            if value.eq_untyped(&self.domain[i]) {
                proof {
                    assert(self@.domain[i as int] == value@);
                }
                return Some(self.domain[i].downgrade());
            }
            i = i + 1;
        }
        proof {
            if self@.domain.contains(value@) {
                let i = choose|i: int|
                    0 <= i < self@.domain.len() && self@.domain[i] == value@;
                assert(self.domain@[i]@ == value@);
            }
        }
        None
    }
}

/// An integer property built over `[start, end)` holds a value exactly when
/// the value lies in that half-open range — the domain is the contiguous
/// run of integers, nothing more and nothing less.
pub proof fn lemma_integer_contains(p: Property<u8>, start: u8, end: u8, v: u8)
    requires
        p.spec_range() == integer_domain(start, end),
    ensures
        p.spec_range().contains(v) <==> start <= v < end,
{
    if start <= v < end {
        assert(integer_domain(start, end)[v - start] == v);
        assert(p.spec_range().contains(v));
    }
    if p.spec_range().contains(v) {
        let i = choose|i: int| 0 <= i < p.spec_range().len() && p.spec_range()[i] == v;
        assert(integer_domain(start, end)[i] == v);
    }
}

/// Casting is stable: a successful cast returns one of the domain's own
/// elements, and casting that element's erased form again returns the very
/// same element. Equal inputs therefore always cast to the same canonical
/// domain element.
pub proof fn lemma_cast_stable<T: Value>(p: Property<T>, m: ValueModel)
    ensures
        p.spec_cast(m) matches Some(x) ==> p.spec_range().contains(x),
        p.spec_cast(m) matches Some(x) ==> p.spec_cast(x.model()) == Some(x),
{
    if p.spec_cast(m) is Some {
        let x = p.spec_cast(m)->Some_0;
        T::lemma_of_model(m);
        assert(x.model() == m);
    }
}

} // verus!
