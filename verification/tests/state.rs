use libcrium::definition::{
    EmptyState, Properties, ReflectProperties, ReflectStateDefinition, StateDefinition,
};
use libcrium::liquid::LiquidState;
use libcrium::property::Property;
use libcrium::state::__StatePermutation;
use libcrium::value::ValueUntyped;

#[test]
fn test_permutation_order() {
    // for domain sizes [2, 3] the odometer emits exactly six tuples, the
    // first position varying fastest, in this order.
    let mut odo = __StatePermutation::new(vec![2, 3]);
    assert_eq!(odo.len(), 6);
    let expected: [&[usize]; 6] = [&[0, 0], &[1, 0], &[0, 1], &[1, 1], &[0, 2], &[1, 2]];
    for tuple in expected {
        assert_eq!(odo.next().as_deref(), Some(tuple));
    }
    assert_eq!(odo.next(), None);
    assert_eq!(odo.len(), 0);
}

#[test]
fn test_permutation_count() {
    // the count always equals the product of the domain sizes.
    let mut odo = __StatePermutation::new(vec![3, 4, 2]);
    assert_eq!(odo.len(), 24);
    let mut count = 0;
    while let Some(tuple) = odo.next() {
        assert_eq!(tuple.len(), 3);
        count += 1;
    }
    assert_eq!(count, 24);

    // with no properties at all there is exactly one (empty) tuple.
    let mut odo = __StatePermutation::new(Vec::new());
    assert_eq!(odo.len(), 1);
    assert_eq!(odo.next(), Some(Vec::new()));
    assert_eq!(odo.next(), None);
}

#[test]
fn test_state_definition_order() {
    let d = StateDefinition::<LiquidState>::new().unwrap();
    assert_eq!(d.len(), 6);
    // "falling" is declared first, so it varies fastest.
    let expected = [
        (false, 0),
        (true, 0),
        (false, 1),
        (true, 1),
        (false, 2),
        (true, 2),
    ];
    for (i, (falling, level)) in expected.into_iter().enumerate() {
        assert_eq!(d.get(i as u16), Some(&LiquidState { falling, level }));
    }
    assert_eq!(d.get(6), None);
}

#[test]
fn test_state_definition_bijection() {
    let d = StateDefinition::<LiquidState>::new().unwrap();
    // every enumerated state maps back to its own index.
    for i in 0..d.len() as u16 {
        let state = *d.get(i).unwrap();
        assert_eq!(d.find(&state), Some(i));
    }
    // an aggregate outside the permutation set has no index.
    assert_eq!(d.find(&LiquidState { falling: false, level: 7 }), None);
}

#[test]
fn test_state_definition_default() {
    let d = StateDefinition::<LiquidState>::new().unwrap();
    assert!((d.default_index() as usize) < d.len());
    assert_eq!(
        d.get(d.default_index()),
        Some(&LiquidState { falling: false, level: 0 })
    );
    assert_eq!(d.get(d.default_index()).copied(), Some(LiquidState::default_state()));
}

#[test]
fn test_empty_state_definition() {
    // the state type with no properties has exactly one state.
    let d = StateDefinition::<EmptyState>::new().unwrap();
    assert_eq!(d.len(), 1);
    assert_eq!(d.get(0), Some(&EmptyState));
    assert_eq!(d.find(&EmptyState), Some(0));
    assert_eq!(d.default_index(), 0);
}

#[test]
fn test_reflected_state_definition() {
    let d = StateDefinition::<LiquidState>::new().unwrap();
    assert_eq!(ReflectStateDefinition::len(&d), 6);
    assert_eq!(ReflectStateDefinition::default_index(&d), 0);

    let vals = d.dyn_get(1).unwrap();
    assert_eq!(
        vals,
        vec![ValueUntyped::Boolean(true), ValueUntyped::Integer(0)]
    );
    assert_eq!(d.dyn_find(&vals), Some(1));
    assert_eq!(d.dyn_get(6), None);
    assert_eq!(
        d.dyn_find(&vec![ValueUntyped::Boolean(true), ValueUntyped::Integer(9)]),
        None
    );
}

#[test]
fn test_state_get_set() {
    let mut state = LiquidState { falling: false, level: 1 };
    let falling = Property::boolean("falling");
    let level = Property::integer("level", 0..3).unwrap();
    let missing = Property::boolean("open");

    assert_eq!(state.get_as(&falling), Some(false));
    assert_eq!(state.get_as(&level), Some(1));
    assert_eq!(state.get_as::<bool>(&missing), None);
    // the key decides the lookup; a handle of the wrong kind finds the
    // field but cannot read it as its own type.
    assert_eq!(state.get_as::<u8>(&Property::integer("falling", 0..3).unwrap()), None);

    assert!(state.set_as(&falling, true));
    assert_eq!(state, LiquidState { falling: true, level: 1 });
    assert!(state.set_as(&level, 2));
    assert_eq!(state, LiquidState { falling: true, level: 2 });

    // out of the declared domain: rejected, state unchanged.
    assert!(!state.set_as(&level, 3));
    assert_eq!(state, LiquidState { falling: true, level: 2 });
    assert!(!state.set_as::<bool>(&missing, false));
    assert_eq!(state, LiquidState { falling: true, level: 2 });

    // the erased interface sees the same values.
    assert_eq!(
        state.get(&falling.erased()),
        Some(ValueUntyped::Boolean(true))
    );
    assert!(state.set(&level.erased(), &ValueUntyped::Integer(0)));
    assert_eq!(state.level, 0);
    assert!(!state.set(&level.erased(), &ValueUntyped::Boolean(true)));
    assert_eq!(
        state.values(),
        vec![ValueUntyped::Boolean(true), ValueUntyped::Integer(0)]
    );
    assert!(state.dyn_eq(&state.clone()));
}
