use avm2_core::activation::Activation;
use avm2_core::coerce::{effective_hint, int_to_string, select_primitive};
use avm2_core::date::{date_allocator, DateObject};
use avm2_core::names::{Namespace, QName};
use avm2_core::object::{ClassDefinition, Hint, ObjRef, ObjectArena, UtcTimestamp, Value};
use avm2_core::utils::{
    get_definition_by_name, get_qualified_class_name, get_qualified_super_class_name, get_timer,
};
use avm2_core::Error;

fn qname(uri: &str, local: &str) -> QName {
    let ns = if uri.is_empty() {
        Namespace::Public
    } else {
        Namespace::Explicit(uri.to_string())
    };
    QName::new(ns, local.to_string()).unwrap()
}

fn activation() -> Activation {
    Activation { arena: ObjectArena::new(), globals: None, time_since_launch_ms: 0 }
}

fn class(a: &mut Activation, uri: &str, local: &str, superclass: Option<ObjRef>) -> ObjRef {
    let def = ClassDefinition { name: qname(uri, local) };
    a.arena.new_class(Some(def), superclass).unwrap()
}

fn str_of(v: Value) -> String {
    match v {
        Value::Str(s) => s,
        other => panic!("not a string: {:?}", other),
    }
}

/// Classes Bar and Foo (a subclass of Bar), a domain defining Foo, an instance of Foo.
fn scene() -> (Activation, ObjRef, ObjRef, ObjRef, ObjRef) {
    let mut a = activation();
    let bar = class(&mut a, "app.pkg", "Bar", None);
    let foo = class(&mut a, "app.pkg", "Foo", Some(bar));
    let domain = a.arena.new_domain(None).unwrap();
    a.arena.define(domain, qname("app.pkg", "Foo"), Value::Object(foo)).unwrap();
    let proto = a.arena.derive(foo).unwrap();
    let inst = a.arena.script_allocator(foo, proto).unwrap();
    (a, bar, foo, domain, inst)
}

#[test]
fn derived_object_has_prototype_and_no_class() {
    let (mut a, _, foo, _, inst) = scene();
    let d = a.arena.derive(inst).unwrap();
    assert_eq!(a.arena.instance_of(d), None);
    assert_eq!(a.arena.prototype(d), Some(inst));
    assert_eq!(a.arena.instance_of(inst), Some(foo));
}

#[test]
fn class_object_reports_its_own_name() {
    let (mut a, _, foo, _, _) = scene();
    let r = get_qualified_class_name(&mut a, None, &[Value::Object(foo)]).unwrap();
    assert_eq!(str_of(r), "app.pkg::Foo");
}

#[test]
fn instance_reports_its_class_name() {
    let (mut a, _, _, _, inst) = scene();
    let r = get_qualified_class_name(&mut a, None, &[Value::Object(inst)]).unwrap();
    assert_eq!(str_of(r), "app.pkg::Foo");
}

#[test]
fn object_without_class_reports_null() {
    let (mut a, _, _, _, inst) = scene();
    let d = a.arena.derive(inst).unwrap();
    let r = get_qualified_class_name(&mut a, None, &[Value::Object(d)]).unwrap();
    assert!(matches!(r, Value::Null));
    let r = get_qualified_super_class_name(&mut a, None, &[Value::Object(d)]).unwrap();
    assert!(matches!(r, Value::Null));
}

#[test]
fn null_and_undefined_fail_coercion() {
    let (mut a, _, _, _, _) = scene();
    let r = get_qualified_class_name(&mut a, None, &[Value::Null]);
    assert_eq!(r.unwrap_err(), Error::TypeError);
    let r = get_qualified_super_class_name(&mut a, None, &[]);
    assert_eq!(r.unwrap_err(), Error::TypeError);
}

#[test]
fn missing_definition_is_an_error() {
    let mut a = activation();
    let c = a.arena.new_class(None, None).unwrap();
    let r = get_qualified_class_name(&mut a, None, &[Value::Object(c)]);
    assert_eq!(r.unwrap_err(), Error::MissingClassDefinition);
    let sub = class(&mut a, "", "Sub", Some(c));
    let r = get_qualified_super_class_name(&mut a, None, &[Value::Object(sub)]);
    assert_eq!(r.unwrap_err(), Error::MissingClassDefinition);
}

#[test]
fn superclass_name_null_without_superclass() {
    let (mut a, bar, foo, _, _) = scene();
    let r = get_qualified_super_class_name(&mut a, None, &[Value::Object(bar)]).unwrap();
    assert!(matches!(r, Value::Null));
    let r = get_qualified_super_class_name(&mut a, None, &[Value::Object(foo)]).unwrap();
    assert_eq!(str_of(r), "app.pkg::Bar");
}

#[test]
fn end_to_end_class_and_superclass_names() {
    let (mut a, _, _, _, inst) = scene();
    let r = get_qualified_class_name(&mut a, None, &[Value::Object(inst)]).unwrap();
    assert_eq!(str_of(r), "app.pkg::Foo");
    let r = get_qualified_super_class_name(&mut a, None, &[Value::Object(inst)]).unwrap();
    assert_eq!(str_of(r), "app.pkg::Bar");
}

#[test]
fn qualified_name_round_trip() {
    for (uri, local) in [("", "Foo"), ("app.pkg", "Foo"), ("a::b", "c"), ("x:", "y")] {
        let q = qname(uri, local);
        let text = q.to_qualified_name();
        let back = QName::from_qualified_name(&text).unwrap();
        assert!(back.same_as(&q), "{}", text);
    }
}

#[test]
fn qualified_name_rendering_and_parsing() {
    assert_eq!(qname("", "Foo").to_qualified_name(), "Foo");
    assert_eq!(qname("flash.display", "Sprite").to_qualified_name(), "flash.display::Sprite");
    let q = QName::from_qualified_name("a::b::c").unwrap();
    assert!(q.same_as(&qname("a::b", "c")));
    let q = QName::from_qualified_name("::c").unwrap();
    assert!(q.same_as(&qname("", "c")));
    let p = QName::new(Namespace::Private("owner".to_string()), "x".to_string()).unwrap();
    assert_eq!(p.to_qualified_name(), "owner::x");
}

#[test]
fn invalid_names_are_refused() {
    assert_eq!(QName::from_qualified_name("").unwrap_err(), Error::InvalidName);
    assert_eq!(QName::from_qualified_name("pkg::").unwrap_err(), Error::InvalidName);
    assert_eq!(QName::new(Namespace::Public, String::new()).unwrap_err(), Error::InvalidName);
    assert_eq!(QName::new(Namespace::Public, "a::b".to_string()).unwrap_err(), Error::InvalidName);
    let e = QName::new(Namespace::Explicit(String::new()), "a".to_string());
    assert_eq!(e.unwrap_err(), Error::InvalidName);
}

#[test]
fn unset_date_is_nan_and_prefers_string() {
    let (mut a, _, foo, _, inst) = scene();
    let d = date_allocator(foo, inst, &mut a).unwrap();
    let date = a.arena.as_date_object(d).unwrap();
    assert_eq!(date.value_of(&a.arena), None);
    let number = date.value_of(&a.arena).map(|m| m as f64).unwrap_or(f64::NAN);
    assert!(number.is_nan());
    assert_eq!(date.default_hint(), Hint::String);
    assert_eq!(a.arena.default_hint(d), Hint::String);
    assert_eq!(a.arena.default_hint(inst), Hint::Number);
}

#[test]
fn date_at_epoch_is_zero() {
    let (mut a, _, foo, _, inst) = scene();
    let d = date_allocator(foo, inst, &mut a).unwrap();
    let date = DateObject(d);
    date.set_date_time(&mut a.arena, Some(UtcTimestamp { millis: 0 }));
    let number = date.value_of(&a.arena).map(|m| m as f64).unwrap_or(f64::NAN);
    assert_eq!(number, 0.0);
    assert_eq!(date.date_time(&a.arena), Some(UtcTimestamp { millis: 0 }));
    date.set_date_time(&mut a.arena, Some(UtcTimestamp { millis: -1234 }));
    assert_eq!(date.value_of(&a.arena), Some(-1234));
}

#[test]
fn derived_date_is_invalid_and_classless() {
    let (mut a, _, foo, _, inst) = scene();
    let d = date_allocator(foo, inst, &mut a).unwrap();
    let date = DateObject(d);
    date.set_date_time(&mut a.arena, Some(UtcTimestamp { millis: 5 }));
    let layer = date.derive(&mut a).unwrap();
    assert_eq!(a.arena.prototype(layer), Some(d));
    assert_eq!(a.arena.instance_of(layer), None);
    assert_eq!(a.arena.as_date_object(layer).unwrap().value_of(&a.arena), None);
}

#[test]
fn date_allocator_refuses_non_class() {
    let (mut a, _, _, _, inst) = scene();
    assert_eq!(date_allocator(inst, inst, &mut a).unwrap_err(), Error::TypeError);
    assert!(a.arena.as_date_object(inst).is_none());
}

#[test]
fn timer_reports_elapsed_and_wraps() {
    let mut a = activation();
    a.time_since_launch_ms = 1500;
    let t1 = get_timer(&mut a, None, &[]).unwrap();
    a.time_since_launch_ms = 2500;
    let t2 = get_timer(&mut a, None, &[]).unwrap();
    match (t1, t2) {
        (Value::Uint(x), Value::Uint(y)) => {
            assert_eq!(x, 1500);
            assert!(x <= y);
        },
        _ => panic!("not unsigned"),
    }
    a.time_since_launch_ms = (1u128 << 32) + 7;
    assert!(matches!(get_timer(&mut a, None, &[]).unwrap(), Value::Uint(7)));
}

#[test]
fn definition_by_name_in_domain() {
    let (mut a, _, foo, domain, _) = scene();
    a.globals = Some(domain);
    let r = get_definition_by_name(&mut a, None, &[Value::Str("app.pkg::Foo".to_string())]);
    assert!(matches!(r.unwrap(), Value::Object(o) if o == foo));
    let r = get_definition_by_name(&mut a, None, &[Value::Str("app.pkg::Nope".to_string())]);
    assert_eq!(r.unwrap_err(), Error::ReferenceError);
    let r = get_definition_by_name(&mut a, None, &[Value::Str(String::new())]);
    assert_eq!(r.unwrap_err(), Error::ReferenceError);
    let r = get_definition_by_name(&mut a, None, &[Value::Int(3)]);
    assert_eq!(r.unwrap_err(), Error::ReferenceError);
    let r = get_definition_by_name(&mut a, None, &[Value::Object(foo)]);
    assert_eq!(r.unwrap_err(), Error::TypeError);
}

#[test]
fn definition_by_name_coerces_primitives_to_text() {
    let (mut a, _, _, domain, _) = scene();
    a.globals = Some(domain);
    a.arena.define(domain, qname("", "-12"), Value::Bool(false)).unwrap();
    a.arena.define(domain, qname("", "null"), Value::Int(0)).unwrap();
    a.arena.define(domain, qname("", "4294967295"), Value::Int(1)).unwrap();
    let r = get_definition_by_name(&mut a, None, &[Value::Int(-12)]);
    assert!(matches!(r.unwrap(), Value::Bool(false)));
    let r = get_definition_by_name(&mut a, None, &[Value::Null]);
    assert!(matches!(r.unwrap(), Value::Int(0)));
    let r = get_definition_by_name(&mut a, None, &[Value::Uint(u32::MAX)]);
    assert!(matches!(r.unwrap(), Value::Int(1)));
    let r = get_definition_by_name(&mut a, None, &[]);
    assert_eq!(r.unwrap_err(), Error::ReferenceError);
}

#[test]
fn integers_render_in_decimal() {
    assert_eq!(int_to_string(0), "0");
    assert_eq!(int_to_string(7), "7");
    assert_eq!(int_to_string(1050), "1050");
    assert_eq!(int_to_string(-2147483648), "-2147483648");
    assert_eq!(int_to_string(i64::MAX), "9223372036854775807");
}

#[test]
fn primitive_coercion_follows_the_hint() {
    let (a, _, _, _, inst) = scene();
    let s = Value::Str("text".to_string());
    let n = Value::Int(5);
    let o = Value::Object(inst);
    assert!(matches!(select_primitive(Hint::String, &s, &n), Ok(Value::Str(_))));
    assert!(matches!(select_primitive(Hint::Number, &s, &n), Ok(Value::Int(5))));
    assert!(matches!(select_primitive(Hint::Number, &s, &o), Ok(Value::Str(_))));
    assert!(matches!(select_primitive(Hint::String, &o, &n), Ok(Value::Int(5))));
    assert_eq!(select_primitive(Hint::String, &o, &o).unwrap_err(), Error::TypeError);
    assert_eq!(effective_hint(&a.arena, inst, None), Hint::Number);
    assert_eq!(effective_hint(&a.arena, inst, Some(Hint::String)), Hint::String);
}

#[test]
fn definition_by_name_without_domain_is_undefined() {
    let (mut a, _, _, _, inst) = scene();
    let arg = [Value::Str("app.pkg::Foo".to_string())];
    assert!(matches!(get_definition_by_name(&mut a, None, &arg).unwrap(), Value::Undefined));
    a.globals = Some(inst);
    assert!(matches!(get_definition_by_name(&mut a, None, &arg).unwrap(), Value::Undefined));
}

#[test]
fn definition_found_in_parent_domain() {
    let (mut a, bar, _, domain, _) = scene();
    let child = a.arena.new_domain(Some(domain)).unwrap();
    a.arena.define(domain, qname("", "answer"), Value::Int(42)).unwrap();
    a.arena.define(child, qname("app.pkg", "Bar"), Value::Object(bar)).unwrap();
    assert!(matches!(a.arena.get_defined_value(child, &qname("", "answer")), Ok(Value::Int(42))));
    assert!(a.arena.get_defined_value(domain, &qname("app.pkg", "Bar")).is_err());
    a.arena.define(child, qname("", "answer"), Value::Bool(true)).unwrap();
    assert!(matches!(a.arena.get_defined_value(child, &qname("", "answer")), Ok(Value::Bool(true))));
    assert!(matches!(a.arena.get_defined_value(domain, &qname("", "answer")), Ok(Value::Int(42))));
}

#[test]
fn properties_fall_back_along_the_prototype_chain() {
    let (mut a, _, _, _, inst) = scene();
    let layer = a.arena.derive(inst).unwrap();
    a.arena.set_property(inst, qname("", "x"), Value::Int(1)).unwrap();
    assert!(matches!(a.arena.get_property(layer, &qname("", "x")), Value::Int(1)));
    a.arena.set_property(layer, qname("", "x"), Value::Int(2)).unwrap();
    assert!(matches!(a.arena.get_property(layer, &qname("", "x")), Value::Int(2)));
    assert!(matches!(a.arena.get_property(inst, &qname("", "x")), Value::Int(1)));
    assert!(matches!(a.arena.get_property(inst, &qname("", "y")), Value::Undefined));
    let bad = ObjRef { index: 999 };
    assert_eq!(a.arena.set_property(bad, qname("", "x"), Value::Null).unwrap_err(), Error::TypeError);
}

#[test]
fn errors_carry_messages() {
    assert!(Error::TypeError.message().starts_with("TypeError"));
    assert!(Error::ReferenceError.message().starts_with("ReferenceError"));
    assert!(Error::MissingClassDefinition.message().contains("class"));
    assert!(Error::InvalidName.message().contains("qualified name"));
}
