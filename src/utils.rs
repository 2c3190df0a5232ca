//! The reflection functions of `flash.utils`.
use crate::activation::Activation;
use crate::coerce::{int_text, int_to_string};
use crate::domain::defined_value;
use crate::error::Error;
use crate::names::{parse, render, QName};
use crate::object::{base_of, slot_wf, ObjRef, ObjectArena, ObjectData, Value};
use vstd::prelude::*;

verus! {

/// The first argument, `undefined` when there is none.
pub open spec fn arg0(args: Seq<Value>) -> Value {
    if args.len() > 0 {
        args[0]
    } else {
        Value::Undefined
    }
}

/// The object that `v` coerces to: only a reference to an existing object does.
pub open spec fn coerce_object(arena: ObjectArena, v: Value) -> Option<ObjRef> {
    match v {
        Value::Object(o) => if arena.valid(o) {
            Some(o)
        } else {
            None
        },
        _ => None,
    }
}

/// The class that reflection reports for object `o`: `o` itself when it is a
/// class object, else the class that allocated it.
pub open spec fn resolve_class(arena: ObjectArena, o: ObjRef) -> Option<ObjRef> {
    if arena.obj(o) is Class {
        Some(o)
    } else {
        base_of(arena.obj(o)).class
    }
}

/// The canonical name of class object `c`, or `MissingClassDefinition`.
pub open spec fn class_name(arena: ObjectArena, c: ObjRef) -> Result<Seq<char>, Error> {
    match arena.obj(c) {
        ObjectData::Class(cd) => match cd.definition {
            Some(d) => Ok(render(d.name@)),
            None => Err(Error::MissingClassDefinition),
        },
        _ => Err(Error::MissingClassDefinition),
    }
}

/// The superclass of class object `c`, if any.
pub open spec fn superclass_of(arena: ObjectArena, c: ObjRef) -> Option<ObjRef> {
    match arena.obj(c) {
        ObjectData::Class(cd) => cd.superclass,
        _ => None,
    }
}

/// What `getQualifiedClassName(v)` answers: a name, null (`None`), or an error.
pub open spec fn qualified_class_name(arena: ObjectArena, v: Value) -> Result<
    Option<Seq<char>>,
    Error,
> {
    match coerce_object(arena, v) {
        None => Err(Error::TypeError),
        Some(o) => match resolve_class(arena, o) {
            None => Ok(None),
            Some(c) => match class_name(arena, c) {
                Ok(s) => Ok(Some(s)),
                Err(e) => Err(e),
            },
        },
    }
}

/// What `getQualifiedSuperclassName(v)` answers.
pub open spec fn qualified_superclass_name(arena: ObjectArena, v: Value) -> Result<
    Option<Seq<char>>,
    Error,
> {
    match coerce_object(arena, v) {
        None => Err(Error::TypeError),
        Some(o) => match resolve_class(arena, o) {
            None => Ok(None),
            Some(c) => match superclass_of(arena, c) {
                None => Ok(None),
                Some(s) => match class_name(arena, s) {
                    Ok(n) => Ok(Some(n)),
                    Err(e) => Err(e),
                },
            },
        },
    }
}

/// `r` carries the answer `a`: a string with that text, null, or the error.
pub open spec fn is_name_answer(r: Result<Value, Error>, a: Result<Option<Seq<char>>, Error>) -> bool {
    match a {
        Ok(None) => r == Ok::<Value, Error>(Value::Null),
        Ok(Some(n)) => r matches Ok(Value::Str(s)) && s@ == n,
        Err(e) => r == Err::<Value, Error>(e),
    }
}

/// The text that a primitive `v` coerces to; an object reference has none
/// here, since its `toString` runs script code.
pub open spec fn coerce_string(v: Value) -> Option<Seq<char>> {
    match v {
        Value::Str(s) => Some(s@),
        Value::Undefined => Some("undefined"@),
        Value::Null => Some("null"@),
        Value::Bool(b) => Some(if b { "true"@ } else { "false"@ }),
        Value::Int(i) => Some(int_text(i as int)),
        Value::Uint(u) => Some(int_text(u as int)),
        Value::Object(_) => None,
    }
}

/// What `getDefinitionByName` answers: `undefined` outside a domain scope;
/// inside one, the definition that the name resolves to, or an error.
pub open spec fn definition_by_name(a: Activation, args: Seq<Value>) -> Result<Value, Error> {
    match a.globals {
        Some(g) if a.arena.valid(g) && a.arena.obj(g) is Domain => match coerce_string(arg0(args)) {
            None => Err(Error::TypeError),
            Some(s) => match parse(s) {
                None => Err(Error::ReferenceError),
                Some(q) => match defined_value(a.arena.objects@, g.index as int, q) {
                    Some(v) => Ok(v),
                    None => Err(Error::ReferenceError),
                },
            },
        },
        _ => Ok(Value::Undefined),
    }
}

/// The elapsed milliseconds that `getTimer` reports: the low 32 bits.
pub open spec fn timer_value(elapsed_ms: u128) -> u32 {
    (elapsed_ms % 0x1_0000_0000) as u32
}

/// Reflection on a class object names that class itself.
pub proof fn lemma_class_object_names_itself(arena: ObjectArena, c: ObjRef)
    requires
        arena.valid(c),
        arena.obj(c) is Class,
    ensures
        qualified_class_name(arena, Value::Object(c)) == (match class_name(arena, c) {
            Ok(n) => Ok(Some(n)),
            Err(e) => Err(e),
        }),
        arena.obj(c) matches ObjectData::Class(cd) && (cd.definition matches Some(d)
            ==> qualified_class_name(arena, Value::Object(c)) == Ok::<Option<Seq<char>>, Error>(
            Some(render(d.name@)),
        )),
{
}

/// Reflection on any other object names the class that allocated it, and
/// answers null for an object without one.
pub proof fn lemma_instance_names_its_class(arena: ObjectArena, o: ObjRef)
    requires
        arena.valid(o),
        !(arena.obj(o) is Class),
    ensures
        base_of(arena.obj(o)).class is None ==> qualified_class_name(arena, Value::Object(o))
            == Ok::<Option<Seq<char>>, Error>(None),
        base_of(arena.obj(o)).class matches Some(c) ==> qualified_class_name(
            arena,
            Value::Object(o),
        ) == (match class_name(arena, c) {
            Ok(n) => Ok(Some(n)),
            Err(e) => Err(e),
        }),
{
}

/// The superclass name is null exactly when the resolved class has no superclass.
pub proof fn lemma_superclass_null_iff_none(arena: ObjectArena, o: ObjRef, c: ObjRef)
    requires
        arena.valid(o),
        resolve_class(arena, o) == Some(c),
    ensures
        (qualified_superclass_name(arena, Value::Object(o)) == Ok::<Option<Seq<char>>, Error>(
            None,
        )) <==> superclass_of(arena, c) is None,
{
}

/// Between two readings of the clock within one wrap period, the timer
/// does not go back.
pub proof fn lemma_timer_monotone(e1: u128, e2: u128)
    requires
        e1 <= e2,
        e1 / 0x1_0000_0000 == e2 / 0x1_0000_0000,
    ensures
        timer_value(e1) <= timer_value(e2),
{
    assert(e1 % 0x1_0000_0000 <= e2 % 0x1_0000_0000) by (nonlinear_arith)
        requires
            e1 <= e2,
            e1 / 0x1_0000_0000 == e2 / 0x1_0000_0000,
    ;
}

fn first_arg(args: &[Value]) -> (r: Value)
    ensures
        r == arg0(args@),
{
    if args.len() > 0 {
        args[0].copy()
    } else {
        Value::Undefined
    }
}

fn coerce_to_object(arena: &ObjectArena, v: &Value) -> (r: Result<ObjRef, Error>)
    ensures
        r == (match coerce_object(*arena, *v) {
            Some(o) => Ok(o),
            None => Err(Error::TypeError),
        }),
{
    match v {
        Value::Object(o) => if arena.is_valid(*o) {
            Ok(*o)
        } else {
            Err(Error::TypeError)
        },
        _ => Err(Error::TypeError),
    }
}

fn class_name_of(arena: &ObjectArena, c: ObjRef) -> (r: Result<String, Error>)
    requires
        arena.valid(c),
    ensures
        match class_name(*arena, c) {
            Ok(n) => r matches Ok(s) && s@ == n,
            Err(e) => r == Err::<String, Error>(e),
        },
{
    match &arena.objects[c.index] {
        ObjectData::Class(cd) => match &cd.definition {
            Some(d) => Ok(d.name.to_qualified_name()),
            None => Err(Error::MissingClassDefinition),
        },
        _ => Err(Error::MissingClassDefinition),
    }
}

fn class_for(arena: &ObjectArena, o: ObjRef) -> (r: Option<ObjRef>)
    requires
        arena.wf(),
        arena.valid(o),
    ensures
        r == resolve_class(*arena, o),
        r matches Some(c) ==> arena.valid(c) && arena.obj(c) is Class,
{
    proof {
        assert(slot_wf(arena.objects@, o.index as int));
    }
    if arena.is_class(o) {
        Some(o)
    } else {
        arena.instance_of(o)
    }
}

/// `getTimer`: the milliseconds elapsed since launch, truncated to 32 bits
/// so that the count wraps around.
pub fn get_timer(activation: &mut Activation, _this: Option<ObjRef>, _args: &[Value]) -> (r: Result<
    Value,
    Error,
>)
    ensures
        *final(activation) == *old(activation),
        r == Ok::<Value, Error>(Value::Uint(timer_value(old(activation).time_since_launch_ms))),
{
    Ok(Value::Uint((activation.time_since_launch_ms % 0x1_0000_0000) as u32))
}

/// `getQualifiedClassName`: the canonical name of the value's class.
pub fn get_qualified_class_name(
    activation: &mut Activation,
    _this: Option<ObjRef>,
    args: &[Value],
) -> (r: Result<Value, Error>)
    requires
        old(activation).arena.wf(),
    ensures
        *final(activation) == *old(activation),
        is_name_answer(r, qualified_class_name(old(activation).arena, arg0(args@))),
{
    let v = first_arg(args);
    let obj = match coerce_to_object(&activation.arena, &v) {
        Ok(o) => o,
        Err(e) => {
            return Err(e);
        },
    };
    let class = match class_for(&activation.arena, obj) {
        Some(c) => c,
        None => {
            return Ok(Value::Null);
        },
    };
    match class_name_of(&activation.arena, class) {
        Ok(s) => Ok(Value::Str(s)),
        Err(e) => Err(e),
    }
}

/// `getQualifiedSuperclassName`: the canonical name of the superclass of the
/// value's class, null when that class has none.
pub fn get_qualified_super_class_name(
    activation: &mut Activation,
    _this: Option<ObjRef>,
    args: &[Value],
) -> (r: Result<Value, Error>)
    requires
        old(activation).arena.wf(),
    ensures
        *final(activation) == *old(activation),
        is_name_answer(r, qualified_superclass_name(old(activation).arena, arg0(args@))),
{
    let v = first_arg(args);
    let obj = match coerce_to_object(&activation.arena, &v) {
        Ok(o) => o,
        Err(e) => {
            return Err(e);
        },
    };
    let class = match class_for(&activation.arena, obj) {
        Some(c) => c,
        None => {
            return Ok(Value::Null);
        },
    };
    proof {
        assert(slot_wf(activation.arena.objects@, class.index as int));
    }
    let superclass = match &activation.arena.objects[class.index] {
        ObjectData::Class(cd) => cd.superclass,
        _ => None,
    };
    match superclass {
        Some(s) => match class_name_of(&activation.arena, s) {
            Ok(n) => Ok(Value::Str(n)),
            Err(e) => Err(e),
        },
        None => Ok(Value::Null),
    }
}

/// `getDefinitionByName`: resolves a qualified name in the domain that is
/// the calling scope's global object; `undefined` when there is no such domain.
pub fn get_definition_by_name(
    activation: &mut Activation,
    _this: Option<ObjRef>,
    args: &[Value],
) -> (r: Result<Value, Error>)
    requires
        old(activation).arena.wf(),
    ensures
        *final(activation) == *old(activation),
        r == definition_by_name(*old(activation), args@),
{
    let domain = match activation.globals {
        Some(g) => if activation.arena.is_domain(g) {
            g
        } else {
            return Ok(Value::Undefined);
        },
        None => {
            return Ok(Value::Undefined);
        },
    };
    let v = first_arg(args);
    let name: String = match &v {
        Value::Str(s) => s.clone(),
        Value::Undefined => String::from_str("undefined"),
        Value::Null => String::from_str("null"),
        Value::Bool(b) => if *b {
            String::from_str("true")
        } else {
            String::from_str("false")
        },
        Value::Int(i) => int_to_string(*i as i64),
        Value::Uint(u) => int_to_string(*u as i64),
        Value::Object(_) => {
            return Err(Error::TypeError);
        },
    };
    match QName::from_qualified_name(name.as_str()) {
        Ok(qname) => activation.arena.get_defined_value(domain, &qname),
        Err(_) => Err(Error::ReferenceError),
    }
}

} // verus!
