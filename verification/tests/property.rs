use libcrium::coords::Direction;
use libcrium::property::{Property, PropertyDef, PropertyError, ReflectProperty};
use libcrium::strenum::Value;
use libcrium::value::ValueUntyped;

#[test]
fn test_boolean_property() {
    let p = Property::boolean("waterlogged");
    assert_eq!(p.key(), "waterlogged");
    assert_eq!(p.len(), 2);
    assert_eq!(p.range(), &vec![false, true]);
    assert_eq!(p.iter(), vec![false, true]);
    assert!(p.contains(&false));
    assert!(p.contains(&true));
}

#[test]
fn test_integer_property_bounds() {
    // the domain of a property over [3, 10) is exactly 3..=9.
    let p = Property::integer("poweredness", 3..10).unwrap();
    assert_eq!(p.key(), "poweredness");
    assert_eq!(p.range(), &vec![3, 4, 5, 6, 7, 8, 9]);
    for v in 0..=255u8 {
        assert_eq!(p.contains(&v), (3..10).contains(&v));
    }

    // fewer than two values is a declaration error.
    assert_eq!(Property::integer("x", 5..6), Err(PropertyError));
    assert_eq!(Property::integer("x", 5..5), Err(PropertyError));
    assert_eq!(Property::integer("x", 6..5), Err(PropertyError));
    assert!(Property::integer("x", 5..7).is_ok());
    assert!(Property::integer("x", 0..255).is_ok());
}

#[test]
fn test_enum_property() {
    let p = Property::<Direction>::enums("facing");
    assert_eq!(p.key(), "facing");
    assert_eq!(p.len(), 6);
    assert!(p.contains(&Direction::Up));

    let subset = vec![
        Direction::South,
        Direction::North,
        Direction::East,
        Direction::West,
    ];
    let p = Property::enums_with("horizontal_facing", subset).unwrap();
    assert_eq!(p.len(), 4);
    assert!(p.contains(&Direction::West));
    assert!(!p.contains(&Direction::Up));

    assert_eq!(
        Property::enums_with("one", vec![Direction::Up]),
        Err(PropertyError)
    );
}

#[test]
fn test_cast_stability() {
    let p = Property::integer("level", 0..16).unwrap();

    // equal inputs cast to the identical domain element, every time.
    let first = p.cast(&ValueUntyped::Integer(5));
    let second = p.cast(&ValueUntyped::Integer(5));
    assert_eq!(first, Some(5));
    assert_eq!(first, second);

    // casting a cast result returns the same element again.
    let again = p.cast(&Value::into_value(first.unwrap()));
    assert_eq!(again, first);

    // out of domain, or of the wrong kind: no element.
    assert_eq!(p.cast(&ValueUntyped::Integer(16)), None);
    assert_eq!(p.cast(&ValueUntyped::Text(String::from("5"))), None);
    assert_eq!(p.cast(&ValueUntyped::Boolean(true)), None);

    let p = Property::<Direction>::enums("facing");
    assert_eq!(
        p.cast(&ValueUntyped::Text(String::from("north"))),
        Some(Direction::North)
    );
    assert_eq!(p.cast(&ValueUntyped::Integer(1)), None);
}

#[test]
fn test_erased_property() {
    let p = Property::integer("level", 0..3).unwrap();
    let e = p.erased();
    assert_eq!(e.key(), "level");
    assert_eq!(e.len(), 3);
    assert_eq!(
        e.dyn_iter(),
        vec![
            ValueUntyped::Integer(0),
            ValueUntyped::Integer(1),
            ValueUntyped::Integer(2),
        ]
    );
    assert!(e.dyn_contains(&ValueUntyped::Integer(2)));
    assert!(!e.dyn_contains(&ValueUntyped::Integer(3)));
    assert!(!e.dyn_contains(&ValueUntyped::Boolean(false)));
    assert_eq!(
        e.dyn_cast(&ValueUntyped::Integer(1)),
        Some(ValueUntyped::Integer(1))
    );
    assert_eq!(e.dyn_cast(&ValueUntyped::Integer(9)), None);

    // identity is the key, for erased and typed properties alike.
    let q = Property::integer("level", 0..5).unwrap();
    assert!(e.dyn_eq(&q.erased()));
    assert!(p.dyn_eq(&q));
    assert!(p == q);
    assert!(p != Property::integer("power", 0..3).unwrap());
}

#[test]
fn test_property_downcast() {
    let e = Property::integer("level", 0..3).unwrap().erased();
    let back = e.downcast::<u8>().unwrap();
    assert_eq!(back.range(), &vec![0, 1, 2]);

    // a downcast to the wrong kind reports a mismatch, never reinterprets.
    let err = e.downcast::<bool>().unwrap_err();
    assert_eq!(err.dst, "boolean");
    assert!(e.downcast::<Direction>().is_err());

    let e = PropertyDef::new(
        "facing",
        vec![
            ValueUntyped::Text(String::from("south")),
            ValueUntyped::Text(String::from("north")),
        ],
    );
    let back = e.downcast::<Direction>().unwrap();
    assert_eq!(back.range(), &vec![Direction::South, Direction::North]);
    assert!(e.downcast::<u8>().is_err());
}
