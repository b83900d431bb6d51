use typed_value::typed_value::{TypeTag, TypedValue};
use typed_value::value::{qfalse, qnil, qtrue, Enumerator, Range, Value};

#[test]
fn integer_classifies_and_round_trips() {
    let h = Value::new(85);
    let tv = TypedValue::from_value(h, TypeTag::Fixnum);
    match tv {
        TypedValue::Integer(i) => assert_eq!(i.as_value(), h),
        _ => panic!("a small integer handle must classify to the Integer case"),
    }
    assert_eq!(tv.as_value(), h);
    assert_eq!(tv.as_value().as_rb_value(), 85);
}

#[test]
fn bignum_collapses_to_integer() {
    let h = Value::new(0x5608_1c2a_9cd0);
    let tv = TypedValue::from_value(h, TypeTag::Bignum);
    match tv {
        TypedValue::Integer(i) => assert_eq!(i.as_value(), h),
        _ => panic!("an arbitrary-precision integer handle must also classify to Integer"),
    }
    assert_eq!(tv.as_value(), h);
}

#[test]
fn empty_array_classifies_and_round_trips() {
    let h = Value::new(0x5608_1c2a_9e10);
    let tv = TypedValue::from_value(h, TypeTag::Array);
    assert!(matches!(tv, TypedValue::Array(_)));
    assert_eq!(tv.as_value(), h);
}

#[test]
fn singletons_classify_to_their_cases() {
    assert!(matches!(
        TypedValue::from_value(qtrue(), TypeTag::True),
        TypedValue::True
    ));
    assert!(matches!(
        TypedValue::from_value(qfalse(), TypeTag::False),
        TypedValue::False
    ));
    assert!(matches!(
        TypedValue::from_value(qnil(), TypeTag::Nil),
        TypedValue::Nil
    ));
}

#[test]
fn singletons_materialize_to_canonical_handles() {
    assert_eq!(TypedValue::True.as_value(), qtrue());
    assert_eq!(TypedValue::False.as_value(), qfalse());
    assert_eq!(TypedValue::Nil.as_value(), qnil());
    assert_eq!(qtrue().as_rb_value(), 0x14);
    assert_eq!(qfalse().as_rb_value(), 0x00);
    assert_eq!(qnil().as_rb_value(), 0x08);
}

#[test]
fn internal_tags_land_in_catch_all_unchanged() {
    let internal = vec![
        TypeTag::Undef,
        TypeTag::Imemo,
        TypeTag::Node,
        TypeTag::IClass,
        TypeTag::Zombie,
        TypeTag::Moved,
        TypeTag::Mask,
    ];
    for tag in internal {
        let h = Value::new(0x5608_1c2b_0008);
        let tv = TypedValue::from_value(h, tag);
        match tv {
            TypedValue::Value(v) => assert_eq!(v, h),
            _ => panic!("an internal host tag must classify to the catch-all case"),
        }
        assert_eq!(tv.as_value(), h);
    }
}

#[test]
fn every_live_tag_classifies_and_round_trips() {
    let pairs = vec![
        (TypeTag::Object, Value::new(0x1000)),
        (TypeTag::Class, Value::new(0x1010)),
        (TypeTag::Module, Value::new(0x1020)),
        (TypeTag::Float, Value::new(0x1032)),
        (TypeTag::String, Value::new(0x1040)),
        (TypeTag::Regexp, Value::new(0x1050)),
        (TypeTag::Array, Value::new(0x1060)),
        (TypeTag::Hash, Value::new(0x1070)),
        (TypeTag::Struct, Value::new(0x1080)),
        (TypeTag::Bignum, Value::new(0x1090)),
        (TypeTag::File, Value::new(0x10a0)),
        (TypeTag::Data, Value::new(0x10b0)),
        (TypeTag::Match, Value::new(0x10c0)),
        (TypeTag::Complex, Value::new(0x10d0)),
        (TypeTag::Rational, Value::new(0x10e0)),
        (TypeTag::Nil, qnil()),
        (TypeTag::True, qtrue()),
        (TypeTag::False, qfalse()),
        (TypeTag::Symbol, Value::new(0x10f1)),
        (TypeTag::Fixnum, Value::new(0x1103)),
        (TypeTag::Undef, Value::new(0x1110)),
        (TypeTag::Imemo, Value::new(0x1120)),
        (TypeTag::Node, Value::new(0x1130)),
        (TypeTag::IClass, Value::new(0x1140)),
        (TypeTag::Zombie, Value::new(0x1150)),
        (TypeTag::Moved, Value::new(0x1160)),
        (TypeTag::Mask, Value::new(0x1170)),
    ];
    for (tag, h) in pairs {
        let tv = TypedValue::from_value(h, tag);
        assert_eq!(tv.as_value(), h);
    }
}

#[test]
fn tags_map_to_their_documented_cases() {
    let h = Value::new(0x2000);
    assert!(matches!(
        TypedValue::from_value(h, TypeTag::Object),
        TypedValue::Object(_)
    ));
    assert!(matches!(
        TypedValue::from_value(h, TypeTag::Class),
        TypedValue::Class(_)
    ));
    assert!(matches!(
        TypedValue::from_value(h, TypeTag::Module),
        TypedValue::Module(_)
    ));
    assert!(matches!(
        TypedValue::from_value(h, TypeTag::Float),
        TypedValue::Float(_)
    ));
    assert!(matches!(
        TypedValue::from_value(h, TypeTag::String),
        TypedValue::String(_)
    ));
    assert!(matches!(
        TypedValue::from_value(h, TypeTag::Regexp),
        TypedValue::Regexp(_)
    ));
    assert!(matches!(
        TypedValue::from_value(h, TypeTag::Hash),
        TypedValue::Hash(_)
    ));
    assert!(matches!(
        TypedValue::from_value(h, TypeTag::Struct),
        TypedValue::Struct(_)
    ));
    assert!(matches!(
        TypedValue::from_value(h, TypeTag::File),
        TypedValue::File(_)
    ));
    assert!(matches!(
        TypedValue::from_value(h, TypeTag::Data),
        TypedValue::TypedData(_)
    ));
    assert!(matches!(
        TypedValue::from_value(h, TypeTag::Match),
        TypedValue::Match(_)
    ));
    assert!(matches!(
        TypedValue::from_value(h, TypeTag::Complex),
        TypedValue::Complex(_)
    ));
    assert!(matches!(
        TypedValue::from_value(h, TypeTag::Rational),
        TypedValue::Rational(_)
    ));
    assert!(matches!(
        TypedValue::from_value(h, TypeTag::Symbol),
        TypedValue::Symbol(_)
    ));
}

#[test]
fn range_and_enumerator_cases_materialize_their_handle() {
    let h = Value::new(0x3000);
    assert_eq!(TypedValue::Range(Range(h)).as_value(), h);
    assert_eq!(TypedValue::Enumerator(Enumerator(h)).as_value(), h);
}

#[test]
fn handle_keeps_its_raw_word() {
    let h = Value::new(0xdead_beef);
    assert_eq!(h.as_rb_value(), 0xdead_beef);
    assert_eq!(h, Value::new(0xdead_beef));
    assert_ne!(h, Value::new(0xdead_bee0));
}
