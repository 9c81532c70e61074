//! The block state definition table: for one state type, the enumeration of
//! every legal state in odometer order, the dense index of each, and the
//! index of the default state.
//!
//! A state type declares its properties through [`Properties`]; building a
//! [`StateDefinition`] enumerates the property domains with the permutation
//! generator, materializes a state for every combination, and fails fast on
//! any declaration error: a duplicated property key, a collision between
//! generated states, a default state that no combination produces, or a
//! state count outside `1..=65535`.

use vstd::prelude::*;

use crate::property::{values_model, Property, PropertyDef, PropertyModel, ReflectProperty};
use crate::state::{
    __StatePermutation, lemma_tuple_at_valid, positive_sizes, size_product, to_ints, tuple_at,
};
use crate::strenum::Value;
use crate::text::str_eq;
use crate::value::{ValueModel, ValueUntyped};

verus! {

/// The models of a sequence of erased properties.
pub open spec fn props_model(ps: Seq<PropertyDef>) -> Seq<PropertyModel> {
    ps.map_values(|p: PropertyDef| p@)
}

/// The domain size of each property, in declaration order.
pub open spec fn domain_sizes(props: Seq<PropertyModel>) -> Seq<usize> {
    props.map_values(|p: PropertyModel| p.domain.len() as usize)
}

/// Whether `vals` assigns each declared property a value from its domain.
pub open spec fn compatible_values(props: Seq<PropertyModel>, vals: Seq<ValueModel>) -> bool {
    vals.len() == props.len() && forall|j: int|
        0 <= j < props.len() ==> props[j].domain.contains(#[trigger] vals[j])
}

/// The first declared property with the given key, or `-1` if no property
/// has it. By-key lookup dispatches to this index: first match wins.
pub open spec fn key_index(props: Seq<PropertyModel>, key: Seq<char>) -> int
    decreases props.len(),
{
    if props.len() == 0 {
        -1
    } else if props[0].key == key {
        0
    } else {
        let r = key_index(props.drop_first(), key);
        if r < 0 {
            -1
        } else {
            r + 1
        }
    }
}

/// Whether no two declared properties share a key.
pub open spec fn distinct_keys(props: Seq<PropertyModel>) -> bool {
    forall|i: int, j: int|
        0 <= i < j < props.len() ==> (#[trigger] props[i]).key != (#[trigger] props[j]).key
}

/// The value each property takes in the `n`-th state: its domain element at
/// the `n`-th odometer tuple's digit.
pub open spec fn tuple_values(props: Seq<PropertyModel>, n: int) -> Seq<ValueModel> {
    Seq::new(props.len(), |j: int| props[j].domain[tuple_at(domain_sizes(props), n)[j]])
}

/// A group of property values, one per declared property of the state type:
/// the erased interface of a block state.
pub trait ReflectProperties: Sized {
    /// The declared properties of this state type, erased, in declaration
    /// order.
    spec fn spec_properties() -> Seq<PropertyModel>;

    /// The property values of this state, in declaration order.
    spec fn spec_values(self) -> Seq<ValueModel>;

    /// A state carries one value per declared property.
    proof fn lemma_values_len(self)
        ensures
            self.spec_values().len() == Self::spec_properties().len(),
    ;

    /// The values determine the state: states with equal values are equal.
    proof fn lemma_values_injective(a: Self, b: Self)
        requires
            a.spec_values() == b.spec_values(),
        ensures
            a == b,
    ;

    /// Compares two states.
    fn dyn_eq(&self, other: &Self) -> (r: bool)
        ensures
            r == (*self == *other),
    ;

    /// Returns the property values of this state, erased, in declaration
    /// order.
    fn values(&self) -> (r: Vec<ValueUntyped>)
        ensures
            values_model(r@) == self.spec_values(),
    ;

    /// Looks a value up by property handle: the first declared property
    /// whose key equals the handle's key answers; `None` when no declared
    /// property has that key.
    fn get(&self, index: &PropertyDef) -> (r: Option<ValueUntyped>)
        ensures
            ({
                let i = key_index(Self::spec_properties(), index@.key);
                if i >= 0 {
                    r matches Some(v) && v@ == self.spec_values()[i]
                } else {
                    r is None
                }
            }),
    ;

    /// Assigns a value by property handle: the first declared property
    /// whose key equals the handle's key takes the value, provided the
    /// value lies in that property's domain; otherwise the state is
    /// unchanged and `false` comes back.
    fn set(&mut self, index: &PropertyDef, value: &ValueUntyped) -> (r: bool)
        ensures
            ({
                let i = key_index(Self::spec_properties(), index@.key);
                if i >= 0 && Self::spec_properties()[i].domain.contains(value@) {
                    r && final(self).spec_values() == old(self).spec_values().update(i, value@)
                } else {
                    !r && *final(self) == *old(self)
                }
            }),
    ;

    /// Looks a value up by typed property handle and converts it to the
    /// handle's value type; `None` when no declared property has the key or
    /// the stored value is of another kind.
    fn get_as<V: Value>(&self, index: &Property<V>) -> (r: Option<V>)
        ensures
            ({
                let i = key_index(Self::spec_properties(), index.spec_key());
                if i >= 0 {
                    r == V::of_model(self.spec_values()[i])
                } else {
                    r is None
                }
            }),
    {
        match self.get(&index.erased()) {
            Some(v) => match V::from_value(&v) {
                Ok(x) => Some(x),
                Err(_) => None,
            },
            None => None,
        }
    }

    /// Assigns a typed value by typed property handle: the counterpart of
    /// [`ReflectProperties::get_as`] for mutation. The first declared
    /// property with the handle's key takes the value, provided the value
    /// lies in that property's domain.
    fn set_as<V: Value>(&mut self, index: &Property<V>, value: V) -> (r: bool)
        ensures
            ({
                let i = key_index(Self::spec_properties(), index.spec_key());
                if i >= 0 && Self::spec_properties()[i].domain.contains(value.model()) {
                    r && final(self).spec_values() == old(self).spec_values().update(
                        i,
                        value.model(),
                    )
                } else {
                    !r && *final(self) == *old(self)
                }
            }),
    {
        let v = value.into_value();
        self.set(&index.erased(), &v)
    }
}

/// A state type whose states can be built from values: what the definition
/// table needs beyond the erased interface.
pub trait Properties: ReflectProperties + Copy {
    /// The default state of this type.
    spec fn spec_default() -> Self;

    /// The state carrying the given values, one per declared property.
    /// Meaningful only on compatible value assignments.
    spec fn spec_from_values(vals: Seq<ValueModel>) -> Self;

    /// Building a state from compatible values yields exactly those values.
    proof fn lemma_from_values(vals: Seq<ValueModel>)
        requires
            compatible_values(Self::spec_properties(), vals),
        ensures
            Self::spec_from_values(vals).spec_values() == vals,
    ;

    /// Returns the declared properties, erased, in declaration order.
    fn properties() -> (r: Vec<PropertyDef>)
        ensures
            props_model(r@) == Self::spec_properties(),
    ;

    /// Returns the default state.
    fn default_state() -> (r: Self)
        ensures
            r == Self::spec_default(),
    ;

    /// Builds the state carrying the given values, one per declared
    /// property, each from its property's domain.
    fn from_values(vals: &Vec<ValueUntyped>) -> (r: Self)
        requires
            compatible_values(Self::spec_properties(), values_model(vals@)),
        ensures
            r == Self::spec_from_values(values_model(vals@)),
    ;
}

/// The error of building a state definition: which declaration invariant
/// was broken.
#[derive(Clone, Copy, Debug, PartialEq, Eq, Structural)]
pub enum StateDefinitionError {
    /// Two declared properties share a key.
    DuplicateKey,
    /// Two generated states are equal: some property domain repeats a
    /// value.
    DuplicateState,
    /// The declared default state is not among the generated states.
    InvalidDefault,
    /// The state count is zero or exceeds the 16-bit index space.
    InvalidCount,
}

impl StateDefinitionError {
    /// A human-readable description of the error.
    pub fn message(&self) -> &'static str {
        match self {
            StateDefinitionError::DuplicateKey => "the block state has multiple properties with the same key",
            StateDefinitionError::DuplicateState => "the block state has multiple equal values",
            StateDefinitionError::InvalidDefault => "the block state default value is not a legal state",
            StateDefinitionError::InvalidCount => "the block state expects 1 to 65535 values",
        }
    }
}

/// The state definition table of one state type: every legal state in
/// odometer order, indexed densely from zero, with the index of the default
/// state. Built once per type by [`StateDefinition::new`] and read-only
/// afterwards.
pub struct StateDefinition<T> {
    /// The declared properties, erased, in declaration order.
    properties: Vec<PropertyDef>,
    /// Every legal state, in enumeration order; the position is the state
    /// index.
    permutation: Vec<T>,
    /// The state index of the default state.
    default_index: u16,
}

impl<T: Properties> StateDefinition<T> {
    /// The models of the stored property list.
    pub closed spec fn spec_props(self) -> Seq<PropertyModel> {
        props_model(self.properties@)
    }

    /// The enumerated states, in order; the position is the state index.
    pub closed spec fn spec_permutation(self) -> Seq<T> {
        self.permutation@
    }

    /// The state index of the default state.
    pub closed spec fn spec_default_index(self) -> int {
        self.default_index as int
    }

    /// The table invariant: the stored properties are the type's declared
    /// properties with pairwise distinct keys; the states are exactly the
    /// enumeration of every domain combination in odometer order, pairwise
    /// distinct, between 1 and 65535 of them; and the default index points
    /// at the default state.
    pub open spec fn wf(self) -> bool {
        &&& self.spec_props() == T::spec_properties()
        &&& distinct_keys(T::spec_properties())
        &&& 1 <= self.spec_permutation().len() <= 0xFFFF
        &&& self.spec_permutation().len() == size_product(domain_sizes(T::spec_properties()))
        &&& forall|n: int|
            0 <= n < self.spec_permutation().len() ==> #[trigger] self.spec_permutation()[n]
                == T::spec_from_values(tuple_values(T::spec_properties(), n))
        &&& forall|m: int, n: int|
            0 <= m < n < self.spec_permutation().len() ==> #[trigger] self.spec_permutation()[m]
                != #[trigger] self.spec_permutation()[n]
        &&& 0 <= self.spec_default_index() < self.spec_permutation().len()
        &&& self.spec_permutation()[self.spec_default_index()] == T::spec_default()
    }

    /// The number of legal states; at least 1 and at most 65535 on a
    /// well-formed table.
    pub fn len(&self) -> (r: usize)
        ensures
            r == self.spec_permutation().len(),
    {
        self.permutation.len()
    }

    /// The state index of the default state.
    pub fn default_index(&self) -> (r: u16)
        ensures
            r == self.spec_default_index(),
    {
        self.default_index
    }

    /// Returns the erased property list, in declaration order.
    pub fn properties(&self) -> (r: &Vec<PropertyDef>)
        ensures
            props_model(r@) == self.spec_props(),
    {
        &self.properties
    }

    /// Returns the state with the given index; `None` exactly when the
    /// index is out of bounds.
    pub fn get(&self, index: u16) -> (r: Option<&T>)
        ensures
            index < self.spec_permutation().len() ==> r == Some(
                &self.spec_permutation()[index as int],
            ),
            index >= self.spec_permutation().len() ==> r is None,
    {
        if (index as usize) < self.permutation.len() {
            Some(&self.permutation[index as usize])
        } else {
            None
        }
    }

    /// Returns the state index of the given state; `None` exactly when the
    /// state is not a legal state of this table.
    pub fn find(&self, state: &T) -> (r: Option<u16>)
        requires
            self.spec_permutation().len() <= 0xFFFF,
        ensures
            match r {
                Some(i) => i < self.spec_permutation().len() && self.spec_permutation()[i as int]
                    == *state,
                None => !self.spec_permutation().contains(*state),
            },
    {
        let n = self.permutation.len();
        let mut i: usize = 0;
        while i < n
            invariant
                n == self.permutation@.len(),
                n <= 0xFFFF,
                i <= n,
                forall|j: int| 0 <= j < i ==> self.permutation@[j] != *state,
            decreases n - i,
        {
            if self.permutation[i].dyn_eq(state) {
                return Some(i as u16);
            }
            i = i + 1;
        }
        None
    }

    /// Builds the table for `T`: enumerates every combination of the
    /// declared property domains in odometer order and indexes the
    /// resulting states. Fails fast, without producing a table, exactly on
    /// the declaration errors the result names: a state count outside
    /// `1..=65535`, then a duplicated property key, then a collision
    /// between generated states, then a default state that no combination
    /// produces.
    pub fn new() -> (r: Result<StateDefinition<T>, StateDefinitionError>)
        ensures
            ({
                let props = T::spec_properties();
                let total = size_product(domain_sizes(props));
                &&& (r == Err::<StateDefinition<T>, _>(StateDefinitionError::InvalidCount) <==> !(1
                    <= total <= 0xFFFF))
                &&& (r == Err::<StateDefinition<T>, _>(StateDefinitionError::DuplicateKey) <==> (1
                    <= total <= 0xFFFF && !distinct_keys(props)))
                &&& (r == Err::<StateDefinition<T>, _>(StateDefinitionError::DuplicateState) <==> (1
                    <= total <= 0xFFFF && distinct_keys(props) && exists|m: int, n: int|
                    0 <= m < n < total && T::spec_from_values(#[trigger] tuple_values(props, m))
                        == T::spec_from_values(#[trigger] tuple_values(props, n))))
                &&& (r matches Ok(d) ==> d.wf())
                &&& (r == Err::<StateDefinition<T>, _>(StateDefinitionError::InvalidDefault) ==> (1
                    <= total <= 0xFFFF && distinct_keys(props) && !(exists|n: int|
                    0 <= n < total && T::spec_from_values(#[trigger] tuple_values(props, n))
                        == T::spec_default())))
            }),
    {
        let ghost gprops = T::spec_properties();
        let ghost gsizes = domain_sizes(gprops);
        let ghost total = size_product(gsizes);
        let props = T::properties();
        let k = props.len();

        // collect the domain sizes, bounding the state count as we go.
        let mut sizes: Vec<usize> = Vec::new();
        let mut count: usize = 1;
        let mut i: usize = 0;
        proof {
            assert(gsizes.take(0) =~= Seq::<usize>::empty());
        }
        while i < k
            invariant
                k == props@.len(),
                props_model(props@) == gprops,
                gprops == T::spec_properties(),
                gsizes == domain_sizes(gprops),
                gsizes.len() == k,
                total == size_product(gsizes),
                i <= k,
                sizes@ == gsizes.take(i as int),
                positive_sizes(sizes@),
                1 <= count <= 0xFFFF,
                count as nat == size_product(gsizes.take(i as int)),
                forall|j: int| 0 <= j < i ==> (#[trigger] gprops[j]).domain.len() <= usize::MAX,
            decreases k - i,
        {
            let s = props[i].len();
            proof {
                assert(props_model(props@)[i as int] == props@[i as int]@);
                assert(gsizes[i as int] == gprops[i as int].domain.len() as usize);
                assert(gsizes[i as int] == s);
            }
            if s == 0 || s > 0xFFFF {
                proof {
                    lemma_bad_size_means_bad_total(gsizes, i as int);
                }
                return Err(StateDefinitionError::InvalidCount);
            }
            proof {
                assert(count * s <= 0xFFFF * 0xFFFF && 1 <= count * s) by (nonlinear_arith)
                    requires
                        1 <= count <= 0xFFFF,
                        1 <= s <= 0xFFFF,
                ;
            }
            let next_count = count * s;
            proof {
                assert(gsizes.take(i as int).push(gsizes[i as int]) =~= gsizes.take(i as int + 1));
                lemma_size_product_push(gsizes.take(i as int), gsizes[i as int]);
            }
            if next_count > 0xFFFF {
                proof {
                    lemma_prefix_bounds_total(gsizes, i as int + 1);
                }
                return Err(StateDefinitionError::InvalidCount);
            }
            sizes.push(s);
            proof {
                assert(sizes@ =~= gsizes.take(i as int + 1));
            }
            count = next_count;
            i = i + 1;
        }
        proof {
            assert(gsizes.take(k as int) =~= gsizes);
            assert(1 <= total <= 0xFFFF);
        }
        proof {
            assert(forall|j: int| 0 <= j < k ==> (#[trigger] gprops[j]).domain.len() <= usize::MAX);
        }

        // reject duplicated property keys.
        let mut a: usize = 0;
        while a < k
            invariant
                k == props@.len(),
                props_model(props@) == gprops,
                gprops == T::spec_properties(),
                total == size_product(domain_sizes(gprops)),
                1 <= total <= 0xFFFF,
                a <= k,
                forall|i2: int, j2: int|
                    0 <= i2 < j2 < k && i2 < a ==> (#[trigger] gprops[i2]).key
                        != (#[trigger] gprops[j2]).key,
            decreases k - a,
        {
            let mut b: usize = a + 1;
            while b < k
                invariant
                    k == props@.len(),
                    props_model(props@) == gprops,
                    gprops == T::spec_properties(),
                gprops == T::spec_properties(),
                    total == size_product(domain_sizes(gprops)),
                    1 <= total <= 0xFFFF,
                    a < k,
                    a < b <= k,
                    forall|j2: int|
                        a < j2 < b ==> gprops[a as int].key != (#[trigger] gprops[j2]).key,
                decreases k - b,
            {
                if str_eq(props[a].key(), props[b].key()) {
                    proof {
                        assert(props_model(props@)[a as int] == props@[a as int]@);
                        assert(props_model(props@)[b as int] == props@[b as int]@);
                        assert(gprops[a as int].key == gprops[b as int].key);
                        assert(!distinct_keys(gprops));
                    }
                    return Err(StateDefinitionError::DuplicateKey);
                }
                b = b + 1;
            }
            a = a + 1;
        }
        proof {
            assert(distinct_keys(gprops));
        }

        // enumerate every combination and materialize its state.
        let mut perm: Vec<T> = Vec::new();
        let mut odo = __StatePermutation::new(sizes);
        loop
            invariant_except_break
                k == props@.len(),
                props_model(props@) == gprops,
                gprops == T::spec_properties(),
                gsizes == domain_sizes(gprops),
                gsizes.len() == k,
                positive_sizes(gsizes),
                total == size_product(gsizes),
                1 <= total <= 0xFFFF,
                forall|j: int| 0 <= j < k ==> (#[trigger] gprops[j]).domain.len() <= usize::MAX,
                odo.wf(),
                odo.spec_sizes() == gsizes,
                perm@.len() == odo.spec_emitted(),
                0 <= odo.spec_remaining(),
                forall|n: int|
                    0 <= n < perm@.len() ==> #[trigger] perm@[n] == T::spec_from_values(
                        tuple_values(gprops, n),
                    ),
            ensures
                perm@.len() == total,
                forall|n: int|
                    0 <= n < perm@.len() ==> #[trigger] perm@[n] == T::spec_from_values(
                        tuple_values(gprops, n),
                    ),
            decreases odo.spec_remaining(),
        {
            let ghost n = odo.spec_emitted();
            match odo.next() {
                None => {
                    break ;
                },
                Some(t) => {
                    proof {
                        lemma_tuple_at_valid(gsizes, n);
                    }
                    let mut vals: Vec<ValueUntyped> = Vec::new();
                    let mut j: usize = 0;
                    while j < k
                        invariant
                            k == props@.len(),
                            props_model(props@) == gprops,
                            gprops == T::spec_properties(),
                    gprops == T::spec_properties(),
                gprops == T::spec_properties(),
                            gsizes == domain_sizes(gprops),
                            gsizes.len() == k,
                            forall|j2: int|
                                0 <= j2 < k ==> (#[trigger] gprops[j2]).domain.len() <= usize::MAX,
                            t@.len() == k,
                            to_ints(t@) == tuple_at(gsizes, n),
                            tuple_at(gsizes, n).len() == k,
                            forall|j2: int|
                                0 <= j2 < k ==> 0 <= #[trigger] tuple_at(gsizes, n)[j2]
                                    < gsizes[j2],
                            j <= k,
                            vals@.len() == j,
                            forall|j2: int|
                                0 <= j2 < j ==> #[trigger] vals@[j2]@ == tuple_values(
                                    gprops,
                                    n,
                                )[j2],
                        decreases k - j,
                    {
                        proof {
                            assert(to_ints(t@)[j as int] == t@[j as int] as int);
                            assert(props_model(props@)[j as int] == props@[j as int]@);
                            assert(gsizes[j as int] == gprops[j as int].domain.len() as usize);
                        }
                        let v = props[j].value_at(t[j]);
                        vals.push(v);
                        proof {
                            assert(tuple_values(gprops, n)[j as int] == gprops[j as int].domain[tuple_at(
                                gsizes,
                                n,
                            )[j as int]]);
                        }
                        j = j + 1;
                    }
                    proof {
                        assert(values_model(vals@) =~= tuple_values(gprops, n));
                        assert forall|j2: int|
                            0 <= j2 < gprops.len() implies gprops[j2].domain.contains(
                            #[trigger] tuple_values(gprops, n)[j2],
                        ) by {
                            assert(tuple_values(gprops, n)[j2] == gprops[j2].domain[tuple_at(
                                gsizes,
                                n,
                            )[j2]]);
                            assert(0 <= tuple_at(gsizes, n)[j2] < gsizes[j2]);
                        }
                        assert(compatible_values(gprops, values_model(vals@)));
                    }
                    let state = T::from_values(&vals);
                    perm.push(state);
                },
            }
        }

        // reject colliding states.
        let total_states = perm.len();
        let mut m: usize = 0;
        while m < total_states
            invariant
                total_states == perm@.len(),
                total_states == total,
                1 <= total <= 0xFFFF,
                distinct_keys(gprops),
                gprops == T::spec_properties(),
                total == size_product(domain_sizes(gprops)),
                m <= total_states,
                forall|n: int|
                    0 <= n < perm@.len() ==> #[trigger] perm@[n] == T::spec_from_values(
                        tuple_values(gprops, n),
                    ),
                forall|i2: int, j2: int|
                    0 <= i2 < j2 < total_states && i2 < m ==> #[trigger] perm@[i2]
                        != #[trigger] perm@[j2],
            decreases total_states - m,
        {
            let mut n2: usize = m + 1;
            while n2 < total_states
                invariant
                    total_states == perm@.len(),
                    total_states == total,
                    1 <= total <= 0xFFFF,
                    distinct_keys(gprops),
                    gprops == T::spec_properties(),
                    total == size_product(domain_sizes(gprops)),
                    m < total_states,
                    m < n2 <= total_states,
                    forall|n: int|
                        0 <= n < perm@.len() ==> #[trigger] perm@[n] == T::spec_from_values(
                            tuple_values(gprops, n),
                        ),
                    forall|j2: int| m < j2 < n2 ==> perm@[m as int] != #[trigger] perm@[j2],
                decreases total_states - n2,
            {
                if perm[m].dyn_eq(&perm[n2]) {
                    proof {
                        assert(T::spec_from_values(tuple_values(gprops, m as int))
                            == T::spec_from_values(tuple_values(gprops, n2 as int)));
                    }
                    return Err(StateDefinitionError::DuplicateState);
                }
                n2 = n2 + 1;
            }
            m = m + 1;
        }
        proof {
            assert forall|m2: int, n3: int|
                0 <= m2 < n3 < total implies T::spec_from_values(
                #[trigger] tuple_values(gprops, m2),
            ) != T::spec_from_values(#[trigger] tuple_values(gprops, n3)) by {
                assert(perm@[m2] == T::spec_from_values(tuple_values(gprops, m2)));
                assert(perm@[n3] == T::spec_from_values(tuple_values(gprops, n3)));
            }
        }

        // locate the default state among the enumerated states.
        let default = T::default_state();
        let mut d: usize = 0;
        let mut default_index: u16 = 0;
        let mut found = false;
        while d < total_states && !found
            invariant
                total_states == perm@.len(),
                total_states <= 0xFFFF,
                gprops == T::spec_properties(),
                forall|n: int|
                    0 <= n < perm@.len() ==> #[trigger] perm@[n] == T::spec_from_values(
                        tuple_values(gprops, n),
                    ),
                default == T::spec_default(),
                d <= total_states,
                !found ==> forall|j2: int| 0 <= j2 < d ==> #[trigger] perm@[j2] != default,
                found ==> default_index < total_states && perm@[default_index as int] == default,
            decreases total_states - d + (if found {
                0int
            } else {
                1int
            }),
        {
            if perm[d].dyn_eq(&default) {
                default_index = d as u16;
                found = true;
            } else {
                d = d + 1;
            }
        }
        if !found {
            proof {
                assert forall|n: int| 0 <= n < total implies T::spec_from_values(
                    #[trigger] tuple_values(gprops, n),
                ) != T::spec_default() by {
                    assert(perm@[n] == T::spec_from_values(tuple_values(gprops, n)));
                }
            }
            return Err(StateDefinitionError::InvalidDefault);
        }
        let table = StateDefinition { properties: props, permutation: perm, default_index };
        proof {
            assert(table.wf());
        }
        Ok(table)
    }
}

/// The product of a size list with one more size appended.
pub open spec fn size_product_push(s: Seq<usize>, x: usize) -> nat {
    size_product(s.push(x))
}

/// Appending a size multiplies the product by it.
proof fn lemma_size_product_push(s: Seq<usize>, x: usize)
    ensures
        size_product(s.push(x)) == size_product(s) * (x as nat),
    decreases s.len(),
{
    if s.len() == 0 {
        assert(s.push(x).drop_first() =~= Seq::<usize>::empty());
        assert(s.push(x)[0] == x);
        assert(size_product(Seq::<usize>::empty()) == 1);
        assert(size_product(s) == 1);
        assert(size_product(s.push(x)) == (x as nat) * 1);
    } else {
        assert(s.push(x).drop_first() =~= s.drop_first().push(x));
        assert(s.push(x)[0] == s[0]);
        lemma_size_product_push(s.drop_first(), x);
        assert((s[0] as nat) * (size_product(s.drop_first()) * (x as nat)) == ((s[0] as nat)
            * size_product(s.drop_first())) * (x as nat)) by (nonlinear_arith);
        assert(size_product(s) == (s[0] as nat) * size_product(s.drop_first()));
    }
    assert(size_product(s) * (x as nat) >= 0) by (nonlinear_arith)
        requires
            size_product(s) >= 0,
    ;
}

/// A zero or oversized domain forces the total state count out of range.
proof fn lemma_bad_size_means_bad_total(sizes: Seq<usize>, i: int)
    requires
        0 <= i < sizes.len(),
        sizes[i] == 0 || sizes[i] > 0xFFFF,
    ensures
        !(1 <= size_product(sizes) <= 0xFFFF),
    decreases i,
{
    if i == 0 {
        assert(sizes.len() > 0);
        if sizes[0] == 0 {
            assert(size_product(sizes) == 0) by (nonlinear_arith)
                requires
                    size_product(sizes) == (sizes[0] as nat) * size_product(sizes.drop_first()),
                    sizes[0] == 0,
            ;
        } else {
            if size_product(sizes.drop_first()) == 0 {
                assert(size_product(sizes) == 0) by (nonlinear_arith)
                    requires
                        size_product(sizes) == (sizes[0] as nat) * size_product(
                            sizes.drop_first(),
                        ),
                        size_product(sizes.drop_first()) == 0,
                ;
            } else {
                assert(size_product(sizes) > 0xFFFF) by (nonlinear_arith)
                    requires
                        size_product(sizes) == (sizes[0] as nat) * size_product(
                            sizes.drop_first(),
                        ),
                        sizes[0] > 0xFFFF,
                        size_product(sizes.drop_first()) >= 1,
                ;
            }
        }
    } else {
        lemma_bad_size_means_bad_total(sizes.drop_first(), i - 1);
        assert(sizes.drop_first()[i - 1] == sizes[i]);
        let rest = size_product(sizes.drop_first());
        if rest == 0 {
            assert(size_product(sizes) == 0) by (nonlinear_arith)
                requires
                    size_product(sizes) == (sizes[0] as nat) * rest,
                    rest == 0,
            ;
        } else {
            assert(rest > 0xFFFF);
            if sizes[0] == 0 {
                assert(size_product(sizes) == 0) by (nonlinear_arith)
                    requires
                        size_product(sizes) == (sizes[0] as nat) * rest,
                        sizes[0] == 0,
                ;
            } else {
                assert(size_product(sizes) > 0xFFFF) by (nonlinear_arith)
                    requires
                        size_product(sizes) == (sizes[0] as nat) * rest,
                        sizes[0] >= 1,
                        rest > 0xFFFF,
                ;
            }
        }
    }
}

/// A prefix product beyond the cap forces the total out of range, provided
/// every remaining size is positive; with a zero size the total is zero,
/// which is out of range as well.
proof fn lemma_prefix_bounds_total(sizes: Seq<usize>, i: int)
    requires
        0 <= i <= sizes.len(),
        size_product(sizes.take(i)) > 0xFFFF,
    ensures
        !(1 <= size_product(sizes) <= 0xFFFF),
    decreases sizes.len() - i,
{
    if i == sizes.len() {
        assert(sizes.take(i) =~= sizes);
    } else {
        assert(sizes.take(i + 1).drop_last() =~= sizes.take(i));
        lemma_size_product_push(sizes.take(i), sizes[i]);
        assert(sizes.take(i).push(sizes[i]) =~= sizes.take(i + 1));
        if sizes[i] == 0 {
            lemma_bad_size_means_bad_total(sizes, i);
        } else {
            assert(size_product(sizes.take(i + 1)) > 0xFFFF) by (nonlinear_arith)
                requires
                    size_product(sizes.take(i + 1)) == size_product(sizes.take(i)) * (
                    sizes[i] as nat),
                    size_product(sizes.take(i)) > 0xFFFF,
                    sizes[i] >= 1,
            ;
            lemma_prefix_bounds_total(sizes, i + 1);
        }
    }
}

/// Every state a well-formed table enumerates maps back to its own index:
/// `find` after `get` is the identity, and `get` after `find` returns the
/// state itself, so the table is a bijection between its states and
/// `0..len`.
pub proof fn lemma_state_definition_bijection<T: Properties>(d: StateDefinition<T>, n: int)
    requires
        d.wf(),
        0 <= n < d.spec_permutation().len(),
    ensures
        forall|m: int|
            0 <= m < d.spec_permutation().len() && d.spec_permutation()[m]
                == d.spec_permutation()[n] ==> m == n,
{
}

/// On a well-formed table the default index is in range and indexes the
/// default state.
pub proof fn lemma_state_definition_default<T: Properties>(d: StateDefinition<T>)
    requires
        d.wf(),
    ensures
        0 <= d.spec_default_index() < d.spec_permutation().len(),
        d.spec_permutation()[d.spec_default_index()] == T::spec_default(),
{
}


/// The erased model of a state definition table: the declared properties,
/// every state as its value list, and the default state's index.
#[verifier::ext_equal]
pub struct StateTableModel {
    /// The declared properties, in order.
    pub properties: Seq<PropertyModel>,
    /// Each state's values, in state-index order.
    pub states: Seq<Seq<ValueModel>>,
    /// The index of the default state.
    pub default_index: int,
}

/// Compares two erased value lists by content.
fn values_eq(a: &Vec<ValueUntyped>, b: &Vec<ValueUntyped>) -> (r: bool)
    ensures
        r == (values_model(a@) == values_model(b@)),
{
    let n = a.len();
    if n != b.len() {
        return false;
    }
    let mut i: usize = 0;
    while i < n
        invariant
            n == a@.len(),
            n == b@.len(),
            i <= n,
            forall|j: int| 0 <= j < i ==> (#[trigger] a@[j])@ == b@[j]@,
        decreases n - i,
    {
        if !a[i].eq_untyped(&b[i]) {
            proof {
                assert(values_model(a@)[i as int] != values_model(b@)[i as int]);
            }
            return false;
        }
        i = i + 1;
    }
    proof {
        assert(values_model(a@) =~= values_model(b@));
    }
    true
}

/// The interface a state definition table presents once its state type is
/// erased: states come and go as value lists. Implemented by
/// [`StateDefinition<T>`].
pub trait ReflectStateDefinition: Sized {
    /// The erased model of the table.
    spec fn spec_table(&self) -> StateTableModel;

    /// Whether the underlying table is well-formed.
    spec fn spec_twf(&self) -> bool;

    /// The number of legal states; always at least 1.
    fn len(&self) -> (r: u16)
        requires
            self.spec_twf(),
        ensures
            r == self.spec_table().states.len(),
            r >= 1,
    ;

    /// The state index of the default state; always below `len`.
    fn default_index(&self) -> (r: u16)
        requires
            self.spec_twf(),
        ensures
            r == self.spec_table().default_index,
            r < self.spec_table().states.len(),
    ;

    /// Returns the values of the state with the given index; `None` exactly
    /// when the index is out of bounds.
    fn dyn_get(&self, index: u16) -> (r: Option<Vec<ValueUntyped>>)
        requires
            self.spec_twf(),
        ensures
            index < self.spec_table().states.len() ==> (r matches Some(v) && values_model(v@)
                == self.spec_table().states[index as int]),
            index >= self.spec_table().states.len() ==> r is None,
    ;

    /// Returns the index of the state with the given values; `None` exactly
    /// when no legal state has them.
    fn dyn_find(&self, state: &Vec<ValueUntyped>) -> (r: Option<u16>)
        requires
            self.spec_twf(),
        ensures
            match r {
                Some(i) => i < self.spec_table().states.len() && self.spec_table().states[
                    i as int
                ] == values_model(state@),
                None => !self.spec_table().states.contains(values_model(state@)),
            },
    ;
}

impl<T: Properties> ReflectStateDefinition for StateDefinition<T> {
    open spec fn spec_table(&self) -> StateTableModel {
        StateTableModel {
            properties: self.spec_props(),
            states: self.spec_permutation().map_values(|t: T| t.spec_values()),
            default_index: self.spec_default_index(),
        }
    }

    open spec fn spec_twf(&self) -> bool {
        self.wf()
    }

    fn len(&self) -> (r: u16) {
        self.permutation.len() as u16
    }

    fn default_index(&self) -> (r: u16) {
        self.default_index
    }

    fn dyn_get(&self, index: u16) -> (r: Option<Vec<ValueUntyped>>) {
        match self.get(index) {
            Some(t) => Some(t.values()),
            None => None,
        }
    }

    fn dyn_find(&self, state: &Vec<ValueUntyped>) -> (r: Option<u16>) {
        let n = self.permutation.len();
        let mut i: usize = 0;
        while i < n
            invariant
                n == self.permutation@.len(),
                n <= 0xFFFF,
                i <= n,
                forall|j: int|
                    0 <= j < i ==> (#[trigger] self.permutation@[j]).spec_values()
                        != values_model(state@),
            decreases n - i,
        {
            let vals = self.permutation[i].values();
            if values_eq(&vals, state) {
                proof {
                    assert(self.spec_table().states[i as int] == self.permutation@[i
                        as int].spec_values());
                }
                return Some(i as u16);
            }
            i = i + 1;
        }
        proof {
            if self.spec_table().states.contains(values_model(state@)) {
                let j = choose|j: int|
                    0 <= j < self.spec_table().states.len() && self.spec_table().states[j]
                        == values_model(state@);
                assert(self.permutation@[j].spec_values() == values_model(state@));
            }
        }
        None
    }
}

/// The empty block state: a state type with no properties at all. Its
/// definition table holds exactly one state — the empty combination.
#[derive(Clone, Copy, Debug, PartialEq, Eq, Structural, Hash)]
pub struct EmptyState;

impl ReflectProperties for EmptyState {
    /// The empty block state declares no properties.
    open spec fn spec_properties() -> Seq<PropertyModel> {
        Seq::empty()
    }

    open spec fn spec_values(self) -> Seq<ValueModel> {
        Seq::empty()
    }

    proof fn lemma_values_len(self) {
    }

    proof fn lemma_values_injective(a: Self, b: Self) {
    }

    fn dyn_eq(&self, other: &Self) -> (r: bool) {
        true
    }

    fn values(&self) -> (r: Vec<ValueUntyped>) {
        let r: Vec<ValueUntyped> = Vec::new();
        proof {
            assert(values_model(r@) =~= Seq::<ValueModel>::empty());
        }
        r
    }

    fn get(&self, index: &PropertyDef) -> (r: Option<ValueUntyped>) {
        None
    }

    fn set(&mut self, index: &PropertyDef, value: &ValueUntyped) -> (r: bool) {
        false
    }
}

impl Properties for EmptyState {
    open spec fn spec_default() -> Self {
        EmptyState
    }

    open spec fn spec_from_values(vals: Seq<ValueModel>) -> Self {
        EmptyState
    }

    proof fn lemma_from_values(vals: Seq<ValueModel>) {
        assert(vals =~= Seq::<ValueModel>::empty());
    }

    fn properties() -> (r: Vec<PropertyDef>) {
        let r: Vec<PropertyDef> = Vec::new();
        proof {
            assert(props_model(r@) =~= Seq::<PropertyModel>::empty());
        }
        r
    }

    fn default_state() -> (r: Self) {
        EmptyState
    }

    fn from_values(vals: &Vec<ValueUntyped>) -> (r: Self) {
        EmptyState
    }
}

} // verus!
