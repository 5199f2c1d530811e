use agent_client_protocol::{IntoMaybeUndefined, MaybeUndefined};

#[test]
fn test_maybe_undefined_to_nested_option() {
    assert_eq!(Option::<Option<i32>>::from(MaybeUndefined::Undefined), None);

    assert_eq!(
        Option::<Option<i32>>::from(MaybeUndefined::Null),
        Some(None)
    );

    assert_eq!(
        Option::<Option<i32>>::from(MaybeUndefined::Value(42)),
        Some(Some(42))
    );
}

#[test]
fn test_as_opt_ref() {
    let value = MaybeUndefined::<String>::Undefined;
    let r = value.as_opt_ref();
    assert_eq!(r, None);

    let value = MaybeUndefined::<String>::Null;
    let r = value.as_opt_ref();
    assert_eq!(r, Some(None));

    let value = MaybeUndefined::<String>::Value("abc".to_string());
    let r = value.as_opt_ref();
    assert_eq!(r, Some(Some(&"abc".to_string())));
}

#[test]
fn test_as_opt_deref() {
    let value = MaybeUndefined::<String>::Undefined;
    let r = value.as_opt_deref();
    assert_eq!(r, None);

    let value = MaybeUndefined::<String>::Null;
    let r = value.as_opt_deref();
    assert_eq!(r, Some(None));

    let value = MaybeUndefined::<String>::Value("abc".to_string());
    let r = value.as_opt_deref();
    assert_eq!(r, Some(Some("abc")));
}

#[test]
fn test_contains_value() {
    let test = "abc";

    let mut value: MaybeUndefined<String> = MaybeUndefined::Undefined;
    assert!(!value.contains_value(&test));

    value = MaybeUndefined::Null;
    assert!(!value.contains_value(&test));

    value = MaybeUndefined::Value("abc".to_string());
    assert!(value.contains_value(&test));
}

#[test]
fn test_contains() {
    let test = Some("abc");
    let none: Option<&str> = None;

    let mut value: MaybeUndefined<String> = MaybeUndefined::Undefined;
    assert!(!value.contains(test.as_ref()));
    assert!(!value.contains(none.as_ref()));

    value = MaybeUndefined::Null;
    assert!(!value.contains(test.as_ref()));
    assert!(value.contains(none.as_ref()));

    value = MaybeUndefined::Value("abc".to_string());
    assert!(value.contains(test.as_ref()));
    assert!(!value.contains(none.as_ref()));
}

#[test]
fn test_map_value() {
    let mut value: MaybeUndefined<i32> = MaybeUndefined::Undefined;
    assert_eq!(value.map_value(|v| v > 2), MaybeUndefined::Undefined);

    value = MaybeUndefined::Null;
    assert_eq!(value.map_value(|v| v > 2), MaybeUndefined::Null);

    value = MaybeUndefined::Value(5);
    assert_eq!(value.map_value(|v| v > 2), MaybeUndefined::Value(true));
}

#[test]
fn test_map() {
    let mut value: MaybeUndefined<i32> = MaybeUndefined::Undefined;
    assert_eq!(value.map(|v| Some(v.is_some())), MaybeUndefined::Undefined);

    value = MaybeUndefined::Null;
    assert_eq!(
        value.map(|v| Some(v.is_some())),
        MaybeUndefined::Value(false)
    );

    value = MaybeUndefined::Value(5);
    assert_eq!(
        value.map(|v| Some(v.is_some())),
        MaybeUndefined::Value(true)
    );
}

#[test]
fn test_transpose() {
    let mut value: MaybeUndefined<Result<i32, &'static str>> = MaybeUndefined::Undefined;
    assert_eq!(value.transpose(), Ok(MaybeUndefined::Undefined));

    value = MaybeUndefined::Null;
    assert_eq!(value.transpose(), Ok(MaybeUndefined::Null));

    value = MaybeUndefined::Value(Ok(5));
    assert_eq!(value.transpose(), Ok(MaybeUndefined::Value(5)));

    value = MaybeUndefined::Value(Err("error"));
    assert_eq!(value.transpose(), Err("error"));
}

#[test]
fn update_to_sets_clears_and_keeps() {
    let mut value = None;

    MaybeUndefined::Value(10i32).update_to(&mut value);
    assert_eq!(value, Some(10));

    MaybeUndefined::Undefined.update_to(&mut value);
    assert_eq!(value, Some(10));

    MaybeUndefined::Null.update_to(&mut value);
    assert_eq!(value, None);
}

#[test]
fn maybe_undefined_predicates_and_accessors() {
    let undefined: MaybeUndefined<i32> = MaybeUndefined::default();
    assert!(undefined.is_undefined());
    assert!(!undefined.is_null());
    assert!(!undefined.is_value());
    assert_eq!(undefined.value(), None);
    assert_eq!(undefined.take(), None);

    let null: MaybeUndefined<i32> = MaybeUndefined::Null;
    assert!(null.is_null());
    assert_eq!(null.take(), None);

    let seven = MaybeUndefined::Value(7);
    assert!(seven.is_value());
    assert_eq!(seven.value(), Some(&7));
    assert_eq!(seven.take(), Some(7));
}

#[test]
fn nested_option_converts_back() {
    assert_eq!(MaybeUndefined::<i32>::from(None), MaybeUndefined::Undefined);
    assert_eq!(MaybeUndefined::<i32>::from(Some(None)), MaybeUndefined::Null);
    assert_eq!(MaybeUndefined::from(Some(Some(3))), MaybeUndefined::Value(3));
}

#[test]
fn into_maybe_undefined_forms() {
    let a: MaybeUndefined<i32> = 4.into_maybe_undefined();
    assert_eq!(a, MaybeUndefined::Value(4));
    let b: MaybeUndefined<i32> = None.into_maybe_undefined();
    assert_eq!(b, MaybeUndefined::Null);
    let c: MaybeUndefined<String> = "x".into_maybe_undefined();
    assert_eq!(c, MaybeUndefined::Value("x".to_string()));
}
