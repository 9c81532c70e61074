use libcrium::definition::{
    Properties, ReflectProperties, StateDefinition, StateDefinitionError,
};
use libcrium::property::{PropertyDef, PropertyModel};
use libcrium::value::{ValueModel, ValueUntyped};
use vstd::prelude::*;

/// A state type whose two properties share the key `"open"`: building its
/// definition table must abort with `DuplicateKey`.
#[derive(Clone, Copy, Debug, PartialEq, Eq, Hash)]
struct DupKeyState {
    open: bool,
    sealed: bool,
}

impl ReflectProperties for DupKeyState {
    fn spec_properties() -> Seq<PropertyModel> {
        panic!()
    }

    fn spec_values(self) -> Seq<ValueModel> {
        panic!()
    }

    fn lemma_values_len(self) {}

    fn lemma_values_injective(_: Self, _: Self) {}

    fn dyn_eq(&self, other: &Self) -> bool {
        self == other
    }

    fn values(&self) -> Vec<ValueUntyped> {
        vec![
            ValueUntyped::Boolean(self.open),
            ValueUntyped::Boolean(self.sealed),
        ]
    }

    fn get(&self, _index: &PropertyDef) -> Option<ValueUntyped> {
        None
    }

    fn set(&mut self, _index: &PropertyDef, _value: &ValueUntyped) -> bool {
        false
    }
}

impl Properties for DupKeyState {
    fn spec_default() -> Self {
        panic!()
    }

    fn spec_from_values(_: Seq<ValueModel>) -> Self {
        panic!()
    }

    fn lemma_from_values(_: Seq<ValueModel>) {}

    fn properties() -> Vec<PropertyDef> {
        let domain = vec![ValueUntyped::Boolean(false), ValueUntyped::Boolean(true)];
        vec![
            PropertyDef::new("open", domain.clone()),
            PropertyDef::new("open", domain),
        ]
    }

    fn default_state() -> Self {
        DupKeyState { open: false, sealed: false }
    }

    fn from_values(vals: &Vec<ValueUntyped>) -> Self {
        let open = matches!(vals[0], ValueUntyped::Boolean(true));
        let sealed = matches!(vals[1], ValueUntyped::Boolean(true));
        DupKeyState { open, sealed }
    }
}

#[test]
fn test_duplicate_key_aborts() {
    assert!(matches!(
        StateDefinition::<DupKeyState>::new(),
        Err(StateDefinitionError::DuplicateKey)
    ));
}

/// A state type whose declared default is not a state the enumeration can
/// produce: building its definition table must abort with `InvalidDefault`.
#[derive(Clone, Copy, Debug, PartialEq, Eq, Hash)]
struct BadDefaultState {
    level: u8,
}

impl ReflectProperties for BadDefaultState {
    fn spec_properties() -> Seq<PropertyModel> {
        panic!()
    }

    fn spec_values(self) -> Seq<ValueModel> {
        panic!()
    }

    fn lemma_values_len(self) {}

    fn lemma_values_injective(_: Self, _: Self) {}

    fn dyn_eq(&self, other: &Self) -> bool {
        self == other
    }

    fn values(&self) -> Vec<ValueUntyped> {
        vec![ValueUntyped::Integer(self.level)]
    }

    fn get(&self, _index: &PropertyDef) -> Option<ValueUntyped> {
        None
    }

    fn set(&mut self, _index: &PropertyDef, _value: &ValueUntyped) -> bool {
        false
    }
}

impl Properties for BadDefaultState {
    fn spec_default() -> Self {
        panic!()
    }

    fn spec_from_values(_: Seq<ValueModel>) -> Self {
        panic!()
    }

    fn lemma_from_values(_: Seq<ValueModel>) {}

    fn properties() -> Vec<PropertyDef> {
        vec![PropertyDef::new(
            "level",
            vec![ValueUntyped::Integer(0), ValueUntyped::Integer(1)],
        )]
    }

    fn default_state() -> Self {
        // 9 is outside the declared domain, so no enumerated state has it.
        BadDefaultState { level: 9 }
    }

    fn from_values(vals: &Vec<ValueUntyped>) -> Self {
        let level = match vals[0] {
            ValueUntyped::Integer(n) => n,
            _ => 0,
        };
        BadDefaultState { level }
    }
}

#[test]
fn test_invalid_default_aborts() {
    assert!(matches!(
        StateDefinition::<BadDefaultState>::new(),
        Err(StateDefinitionError::InvalidDefault)
    ));
}

/// A state type whose property domain repeats a value: two combinations
/// collapse into equal states, so building the table must abort with
/// `DuplicateState`.
#[derive(Clone, Copy, Debug, PartialEq, Eq, Hash)]
struct DupValueState {
    level: u8,
}

impl ReflectProperties for DupValueState {
    fn spec_properties() -> Seq<PropertyModel> {
        panic!()
    }

    fn spec_values(self) -> Seq<ValueModel> {
        panic!()
    }

    fn lemma_values_len(self) {}

    fn lemma_values_injective(_: Self, _: Self) {}

    fn dyn_eq(&self, other: &Self) -> bool {
        self == other
    }

    fn values(&self) -> Vec<ValueUntyped> {
        vec![ValueUntyped::Integer(self.level)]
    }

    fn get(&self, _index: &PropertyDef) -> Option<ValueUntyped> {
        None
    }

    fn set(&mut self, _index: &PropertyDef, _value: &ValueUntyped) -> bool {
        false
    }
}

impl Properties for DupValueState {
    fn spec_default() -> Self {
        panic!()
    }

    fn spec_from_values(_: Seq<ValueModel>) -> Self {
        panic!()
    }

    fn lemma_from_values(_: Seq<ValueModel>) {}

    fn properties() -> Vec<PropertyDef> {
        vec![PropertyDef::new(
            "level",
            vec![ValueUntyped::Integer(4), ValueUntyped::Integer(4)],
        )]
    }

    fn default_state() -> Self {
        DupValueState { level: 4 }
    }

    fn from_values(vals: &Vec<ValueUntyped>) -> Self {
        let level = match vals[0] {
            ValueUntyped::Integer(n) => n,
            _ => 0,
        };
        DupValueState { level }
    }
}

#[test]
fn test_duplicate_state_aborts() {
    assert!(matches!(
        StateDefinition::<DupValueState>::new(),
        Err(StateDefinitionError::DuplicateState)
    ));
}

/// A state type declaring a property with an empty domain: no state can be
/// enumerated, so building the table must abort with `InvalidCount`.
#[derive(Clone, Copy, Debug, PartialEq, Eq, Hash)]
struct EmptyDomainState {
    level: u8,
}

impl ReflectProperties for EmptyDomainState {
    fn spec_properties() -> Seq<PropertyModel> {
        panic!()
    }

    fn spec_values(self) -> Seq<ValueModel> {
        panic!()
    }

    fn lemma_values_len(self) {}

    fn lemma_values_injective(_: Self, _: Self) {}

    fn dyn_eq(&self, other: &Self) -> bool {
        self == other
    }

    fn values(&self) -> Vec<ValueUntyped> {
        vec![ValueUntyped::Integer(self.level)]
    }

    fn get(&self, _index: &PropertyDef) -> Option<ValueUntyped> {
        None
    }

    fn set(&mut self, _index: &PropertyDef, _value: &ValueUntyped) -> bool {
        false
    }
}

impl Properties for EmptyDomainState {
    fn spec_default() -> Self {
        panic!()
    }

    fn spec_from_values(_: Seq<ValueModel>) -> Self {
        panic!()
    }

    fn lemma_from_values(_: Seq<ValueModel>) {}

    fn properties() -> Vec<PropertyDef> {
        vec![PropertyDef::new("level", Vec::new())]
    }

    fn default_state() -> Self {
        EmptyDomainState { level: 0 }
    }

    fn from_values(vals: &Vec<ValueUntyped>) -> Self {
        let level = match vals[0] {
            ValueUntyped::Integer(n) => n,
            _ => 0,
        };
        EmptyDomainState { level }
    }
}

#[test]
fn test_empty_domain_aborts() {
    assert!(matches!(
        StateDefinition::<EmptyDomainState>::new(),
        Err(StateDefinitionError::InvalidCount)
    ));
}
