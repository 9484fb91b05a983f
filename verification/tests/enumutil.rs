use virt::enumutil::Enum;
use virt::enumutil::EnumText;
use virt::enumutil::RawEnum;
use virt::example::Example;
use virt::example::BAR;
use virt::example::BAZ;
use virt::example::FOO;

#[test]
fn test_enum_from_raw() {
    let inputs = [
        (FOO, Some(Example::Foo)),
        (BAR, Some(Example::Bar)),
        (BAZ, Some(Example::Baz)),
        (10, None),
    ];

    for &(raw, expected) in inputs.iter() {
        assert_eq!(Example::from_raw(raw), expected);
    }
}

#[test]
fn test_enum_to_raw() {
    let inputs = [
        (Example::Foo, FOO, "foo"),
        (Example::Bar, BAR, "bar"),
        (Example::Baz, BAZ, "baz"),
    ];

    for &(variant, expected, estr) in inputs.iter() {
        assert_eq!(variant.to_raw(), expected);
        assert_eq!(variant.render(), estr);
    }
}

#[test]
fn round_trip_known_values() {
    for &(raw, variant) in [(FOO, Example::Foo), (BAR, Example::Bar), (BAZ, Example::Baz)].iter() {
        assert_eq!(Example::from_raw(raw), Some(variant));
        assert_eq!(variant.to_raw(), raw);
        let e = Enum::<Example, u32>::from_raw(raw);
        assert!(e.is_known());
        assert_eq!(e.to_raw(), raw);
    }
}

#[test]
fn round_trip_unknown_values() {
    for &raw in [3u32, 10, 999, u32::MAX].iter() {
        let e = Enum::<Example, u32>::from_raw(raw);
        assert!(e.is_unknown());
        assert_eq!(e.to_raw(), raw);
    }
}

#[test]
fn rendering() {
    assert_eq!(Example::Bar.render(), "bar");
    let e = Enum::<Example, u32>::from_raw(8);
    let s = e.render();
    assert!(s.contains("Example"));
    assert!(s.contains("(8)"));
    assert_eq!(s, "Example(8)");
}

#[test]
fn known_unknown_partition() {
    for &raw in [0u32, 1, 2, 3, 10, u32::MAX].iter() {
        let e = Enum::<Example, u32>::from_raw(raw);
        assert_ne!(e.is_known(), e.is_unknown());
        assert_ne!(e.known().is_some(), e.unknown().is_some());
    }
}

#[test]
fn result_conversion_fidelity() {
    let known = Enum::<Example, u32>::from_raw(2);
    match known.into_result() {
        Ok(v) => assert_eq!(v, Example::Baz),
        Err(_) => panic!("a known value must convert to success"),
    }

    let unknown = Enum::<Example, u32>::from_raw(10);
    match unknown.into_result() {
        Ok(_) => panic!("an unknown value must convert to failure"),
        Err(err) => assert_eq!(err.value(), 10),
    }
}

#[test]
fn concrete_scenario() {
    let known = Enum::<Example, u32>::from_raw(1);
    assert!(known.is(Example::Bar));
    assert_eq!(known.unwrap(), Example::Bar);
    assert_eq!(known.render(), "bar");

    let unknown = Enum::<Example, u32>::from_raw(10);
    assert_eq!(unknown.to_raw(), 10);
    assert!(!unknown.is_known_and(|k| k == Example::Bar));
    match unknown.into_result() {
        Ok(_) => panic!("an unknown value must convert to failure"),
        Err(err) => assert_eq!(err.value(), 10),
    }
}

#[test]
fn accessors() {
    let known = Enum::<Example, u32>::from_raw(0);
    assert_eq!(known.known(), Some(Example::Foo));
    assert_eq!(known.unknown(), None);
    assert_eq!(known.unwrap_or(Example::Baz), Example::Foo);
    assert!(known.is_known_and(|k| k == Example::Foo));
    assert!(!known.is_unknown_and(|_| true));
    assert!(!known.is(Example::Bar));
    assert!(known.is_any(&[Example::Bar, Example::Foo]));
    assert!(!known.is_any(&[Example::Bar, Example::Baz]));
    assert!(!known.is_any(&[]));

    let unknown = Enum::<Example, u32>::from_raw(7);
    assert_eq!(unknown.known(), None);
    assert_eq!(unknown.unknown(), Some(7));
    assert_eq!(unknown.unwrap_or(Example::Baz), Example::Baz);
    assert!(!unknown.is_known_and(|_| true));
    assert!(unknown.is_unknown_and(|v| v == 7));
    assert!(!unknown.is(Example::Foo));
    assert!(!unknown.is_any(&[Example::Foo, Example::Bar, Example::Baz]));
}

#[test]
fn from_symbolic_always_known() {
    let e: Enum<Example, u32> = Enum::from(Example::Bar);
    assert!(e.is_known());
    assert_eq!(e.to_raw(), BAR);
    assert_eq!(e.unwrap(), Example::Bar);
}
