use libcrium::coords::Direction;
use libcrium::strenum::{
    ReflectValue, Value, ValueToBooleanError, ValueToEnumError, ValueToIntegerError,
};
use libcrium::value::ValueUntyped;

#[test]
fn test_parse_priority() {
    // a decimal numeral always parses as an integer, never as text, even
    // though an enum variant could carry the label "5".
    assert_eq!(ValueUntyped::from_borrowed_str("5"), ValueUntyped::Integer(5));
    assert_eq!(ValueUntyped::from_borrowed_str("true"), ValueUntyped::Boolean(true));
    assert_eq!(ValueUntyped::from_borrowed_str("false"), ValueUntyped::Boolean(false));
    assert_eq!(ValueUntyped::from_borrowed_str("0"), ValueUntyped::Integer(0));
    assert_eq!(ValueUntyped::from_borrowed_str("255"), ValueUntyped::Integer(255));
    assert_eq!(ValueUntyped::from_borrowed_str("05"), ValueUntyped::Integer(5));
    assert_eq!(ValueUntyped::from_borrowed_str("+7"), ValueUntyped::Integer(7));

    // out of byte range, or not a numeral at all: plain text.
    assert_eq!(
        ValueUntyped::from_borrowed_str("256"),
        ValueUntyped::Text(String::from("256"))
    );
    assert_eq!(
        ValueUntyped::from_borrowed_str("north"),
        ValueUntyped::Text(String::from("north"))
    );
    assert_eq!(
        ValueUntyped::from_borrowed_str("True"),
        ValueUntyped::Text(String::from("True"))
    );
    assert_eq!(
        ValueUntyped::from_borrowed_str(""),
        ValueUntyped::Text(String::from(""))
    );
    assert_eq!(
        ValueUntyped::from_borrowed_str("+"),
        ValueUntyped::Text(String::from("+"))
    );
    assert_eq!(
        ValueUntyped::from_borrowed_str("-1"),
        ValueUntyped::Text(String::from("-1"))
    );
}

#[test]
fn test_value_as_str() {
    assert_eq!(ValueUntyped::Boolean(true).as_str(), "true");
    assert_eq!(ValueUntyped::Boolean(false).as_str(), "false");
    assert_eq!(ValueUntyped::Integer(0).as_str(), "0");
    assert_eq!(ValueUntyped::Integer(3).as_str(), "3");
    assert_eq!(ValueUntyped::Integer(23).as_str(), "23");
    assert_eq!(ValueUntyped::Integer(233).as_str(), "233");
    assert_eq!(ValueUntyped::Integer(255).as_str(), "255");
    assert_eq!(ValueUntyped::Text(String::from("north")).as_str(), "north");
}

#[test]
fn test_value_accessors() {
    let b = ValueUntyped::Boolean(false);
    let i = ValueUntyped::Integer(23);
    let s = ValueUntyped::Text(String::from("hello, world"));

    assert_eq!(b.bool_or_none(), Some(false));
    assert_eq!(i.bool_or_none(), None);
    assert_eq!(s.bool_or_none(), None);

    assert_eq!(b.int_or_none(), None);
    assert_eq!(i.int_or_none(), Some(23));
    assert_eq!(s.int_or_none(), None);

    assert_eq!(b.str_or_none(), None);
    assert_eq!(i.str_or_none(), None);
    assert_eq!(s.str_or_none(), Some("hello, world"));

    assert_eq!(b.bool_and_then(|x| !x), Some(true));
    assert_eq!(i.bool_and_then(|x| !x), None);
    assert_eq!(i.int_and_then(|x| x + 1), Some(24));
    assert_eq!(s.int_and_then(|x| x + 1), None);
    assert_eq!(s.str_and_then(|x| x.len()), Some(12));
    assert_eq!(b.str_and_then(|x| x.len()), None);

    assert_eq!(b.bool_or_else(|| "no"), Ok(false));
    assert_eq!(i.bool_or_else(|| "no"), Err("no"));
    assert_eq!(i.int_or_else(|| "no"), Ok(23));
    assert_eq!(b.int_or_else(|| "no"), Err("no"));
    assert_eq!(s.str_or_else(|| "no"), Ok("hello, world"));
    assert_eq!(i.str_or_else(|| "no"), Err("no"));

    assert_eq!(b.upgrade(), ValueUntyped::Boolean(false));
    assert_eq!(s.downgrade(), ValueUntyped::Text(String::from("hello, world")));
}

#[test]
fn test_typed_conversions() {
    let b = ValueUntyped::Boolean(true);
    let i = ValueUntyped::Integer(9);
    let s = ValueUntyped::Text(String::from("x"));

    assert_eq!(b.typed::<bool>(), Ok(true));
    assert_eq!(i.typed::<bool>(), Err(ValueToBooleanError));
    assert_eq!(i.typed::<u8>(), Ok(9));
    assert_eq!(s.typed::<u8>(), Err(ValueToIntegerError));

    assert_eq!(bool::from_text("true"), Some(true));
    assert_eq!(bool::from_text("yes"), None);
    assert_eq!(u8::from_text("42"), Some(42));
    assert_eq!(u8::from_text("299"), None);

    assert_eq!(true.into_value(), ValueUntyped::Boolean(true));
    assert_eq!(7u8.into_value(), ValueUntyped::Integer(7));

    // the erased face comes with every value type.
    assert_eq!(7u8.untyped(), ValueUntyped::Integer(7));
    assert_eq!(true.as_str(), "true");
    assert_eq!(200u8.as_str(), "200");
    assert!(5u8.dyn_eq(&5u8));
    assert!(!5u8.dyn_eq(&6u8));

    let mut v = 0u8;
    assert!(v.dyn_from_str("17"));
    assert_eq!(v, 17);
    assert!(!v.dyn_from_str("none"));
    assert_eq!(v, 17);
    assert!(v.dyn_from_value(&ValueUntyped::Integer(3)));
    assert_eq!(v, 3);
    assert!(!v.dyn_from_value(&ValueUntyped::Boolean(true)));
    assert_eq!(v, 3);

    // the enum conversion error tells text apart from a missing label.
    let err = ValueUntyped::Integer(1).typed::<Direction>();
    assert!(matches!(err, Err(ValueToEnumError::TryFromError(_))));
    let err = ValueUntyped::Text(String::from("sideways")).typed::<Direction>();
    assert_eq!(err, Err(ValueToEnumError::FromStrError));
}
