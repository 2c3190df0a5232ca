//! The object model: an arena of object slots, each holding one variant with
//! its base state, and the allocation and derivation protocol.
use crate::error::Error;
use crate::names::{QName, QNameView};
use vstd::prelude::*;

verus! {

/// A handle on an object: the index of its slot in the arena. Equality is identity.
#[derive(Debug, Clone, Copy, PartialEq, Eq, Structural)]
pub struct ObjRef {
    pub index: usize,
}

/// An absolute point in time, in milliseconds since the Unix epoch (UTC).
#[derive(Debug, Clone, Copy, PartialEq, Eq, Structural)]
pub struct UtcTimestamp {
    pub millis: i64,
}

/// Which conversion a primitive coercion tries first.
#[derive(Debug, Clone, Copy, PartialEq, Eq, Structural)]
pub enum Hint {
    String,
    Number,
}

/// A runtime value.
#[derive(Debug)]
pub enum Value {
    Undefined,
    Null,
    Bool(bool),
    Int(i32),
    Uint(u32),
    Str(String),
    Object(ObjRef),
}

impl Value {
    /// A copy of this value.
    pub fn copy(&self) -> (r: Value)
        ensures
            r == *self,
    {
        match self {
            Value::Undefined => Value::Undefined,
            Value::Null => Value::Null,
            Value::Bool(b) => Value::Bool(*b),
            Value::Int(i) => Value::Int(*i),
            Value::Uint(u) => Value::Uint(*u),
            Value::Str(s) => Value::Str(s.clone()),
            Value::Object(o) => Value::Object(*o),
        }
    }
}

/// The state that every object variant carries.
#[derive(Debug)]
pub struct ScriptObjectData {
    /// The next object of the prototype chain.
    pub prototype: Option<ObjRef>,
    /// The class object that allocated this object.
    pub class: Option<ObjRef>,
    /// Dynamic properties, looked up by name.
    pub properties: Vec<(QName, Value)>,
}

impl ScriptObjectData {
    /// Base state with the given links and no properties.
    pub fn base_new(prototype: Option<ObjRef>, class: Option<ObjRef>) -> (r: ScriptObjectData)
        ensures
            r.prototype == prototype,
            r.class == class,
            r.properties@.len() == 0,
    {
        ScriptObjectData { prototype, class, properties: Vec::new() }
    }
}

/// The metadata of a class.
#[derive(Debug)]
pub struct ClassDefinition {
    pub name: QName,
}

/// A class object: a class that scripts can introspect like any value.
#[derive(Debug)]
pub struct ClassObjectData {
    pub base: ScriptObjectData,
    /// The class metadata; absent only through an internal inconsistency.
    pub definition: Option<ClassDefinition>,
    /// The class object of the superclass.
    pub superclass: Option<ObjRef>,
}

/// An application domain: a table of definitions with an optional parent domain.
#[derive(Debug)]
pub struct DomainObjectData {
    pub base: ScriptObjectData,
    pub definitions: Vec<(QName, Value)>,
    pub parent: Option<ObjRef>,
}

/// A date object; `None` is the invalid date.
#[derive(Debug)]
pub struct DateObjectData {
    pub base: ScriptObjectData,
    pub date_time: Option<UtcTimestamp>,
}

/// The contents of one arena slot: one object variant.
#[derive(Debug)]
pub enum ObjectData {
    Script(ScriptObjectData),
    Class(ClassObjectData),
    Domain(DomainObjectData),
    Date(DateObjectData),
}

/// The base state of an object variant.
pub open spec fn base_of(o: ObjectData) -> ScriptObjectData {
    match o {
        ObjectData::Script(b) => b,
        ObjectData::Class(c) => c.base,
        ObjectData::Domain(d) => d.base,
        ObjectData::Date(d) => d.base,
    }
}

/// `l` is absent or names a slot below `i`.
pub open spec fn link_below(l: Option<ObjRef>, i: int) -> bool {
    l matches Some(r) ==> r.index < i
}

/// The links of slot `i` point to earlier slots of the right variant: a
/// class link and a superclass to a class object, a parent to a domain.
pub open spec fn slot_wf(objs: Seq<ObjectData>, i: int) -> bool {
    let o = objs[i];
    &&& link_below(base_of(o).prototype, i)
    &&& link_below(base_of(o).class, i)
    &&& (base_of(o).class matches Some(c) ==> objs[c.index as int] is Class)
    &&& (o matches ObjectData::Class(cd) ==> link_below(cd.superclass, i) && (
    cd.superclass matches Some(s) ==> objs[s.index as int] is Class))
    &&& (o matches ObjectData::Domain(dd) ==> link_below(dd.parent, i) && (
    dd.parent matches Some(p) ==> objs[p.index as int] is Domain))
}

/// The managed store of all objects; `&mut` access to it is the capability
/// to mutate object state.
pub struct ObjectArena {
    pub objects: Vec<ObjectData>,
}

impl ObjectArena {
    /// Every slot is well formed.
    pub open spec fn wf(&self) -> bool {
        forall|i: int| 0 <= i < self.objects@.len() ==> #[trigger] slot_wf(self.objects@, i)
    }

    /// `r` names a slot of this arena.
    pub open spec fn valid(&self, r: ObjRef) -> bool {
        r.index < self.objects@.len()
    }

    /// The object in slot `r`.
    pub open spec fn obj(&self, r: ObjRef) -> ObjectData {
        self.objects@[r.index as int]
    }

    /// An empty arena.
    pub fn new() -> (r: ObjectArena)
        ensures
            r.wf(),
            r.objects@.len() == 0,
    {
        ObjectArena { objects: Vec::new() }
    }

    /// The number of objects.
    pub fn len(&self) -> (r: usize)
        ensures
            r == self.objects@.len(),
    {
        self.objects.len()
    }

    /// Whether `r` names a slot of this arena.
    pub fn is_valid(&self, r: ObjRef) -> (b: bool)
        ensures
            b == self.valid(r),
    {
        r.index < self.objects.len()
    }

    /// Whether `r` names a class object.
    pub fn is_class(&self, r: ObjRef) -> (b: bool)
        ensures
            b == (self.valid(r) && self.obj(r) is Class),
    {
        r.index < self.objects.len() && matches!(self.objects[r.index], ObjectData::Class(_))
    }

    /// Whether `r` names an application domain.
    pub fn is_domain(&self, r: ObjRef) -> (b: bool)
        ensures
            b == (self.valid(r) && self.obj(r) is Domain),
    {
        r.index < self.objects.len() && matches!(self.objects[r.index], ObjectData::Domain(_))
    }

    /// Stores a new object in a fresh slot, after all existing ones.
    fn allocate(&mut self, data: ObjectData) -> (r: ObjRef)
        requires
            old(self).wf(),
            slot_wf(old(self).objects@.push(data), old(self).objects@.len() as int),
        ensures
            final(self).wf(),
            final(self).objects@ == old(self).objects@.push(data),
            r.index == old(self).objects@.len(),
    {
        let r = ObjRef { index: self.objects.len() };
        let ghost before = self.objects@;
        self.objects.push(data);
        proof {
            assert forall|i: int| 0 <= i < self.objects@.len() implies #[trigger] slot_wf(
                self.objects@,
                i,
            ) by {
                if i < before.len() {
                    assert(slot_wf(before, i));
                    assert(self.objects@[i] == before[i]);
                }
            }
        }
        r
    }

    /// Creates a class object with the given metadata and superclass;
    /// `TypeError` when the superclass is not a class object.
    pub fn new_class(&mut self, definition: Option<ClassDefinition>, superclass: Option<ObjRef>) -> (r:
        Result<ObjRef, Error>)
        requires
            old(self).wf(),
        ensures
            final(self).wf(),
            r is Ok <==> (superclass matches Some(s) ==> old(self).valid(s) && old(self).obj(s) is Class),
            match r {
                Ok(c) => c.index == old(self).objects@.len() && final(self).objects@.len()
                    == old(self).objects@.len() + 1 && final(self).objects@.take(
                    c.index as int,
                ) == old(self).objects@ && (final(self).obj(c) matches ObjectData::Class(cd)
                    && cd.definition == definition && cd.superclass == superclass
                    && cd.base.prototype is None && cd.base.class is None
                    && cd.base.properties@.len() == 0),
                Err(e) => e == Error::TypeError && *final(self) == *old(self),
            },
    {
        if let Some(s) = superclass {
            if !self.is_class(s) {
                return Err(Error::TypeError);
            }
        }
        let data = ObjectData::Class(
            ClassObjectData { base: ScriptObjectData::base_new(None, None), definition, superclass },
        );
        let c = self.allocate(data);
        proof {
            assert(self.objects@.take(c.index as int) =~= old(self).objects@);
        }
        Ok(c)
    }

    /// Creates an empty application domain under an optional parent;
    /// `TypeError` when the parent is not a domain.
    pub fn new_domain(&mut self, parent: Option<ObjRef>) -> (r: Result<ObjRef, Error>)
        requires
            old(self).wf(),
        ensures
            final(self).wf(),
            r is Ok <==> (parent matches Some(p) ==> old(self).valid(p) && old(self).obj(p) is Domain),
            match r {
                Ok(d) => d.index == old(self).objects@.len() && final(self).objects@.len()
                    == old(self).objects@.len() + 1 && final(self).objects@.take(
                    d.index as int,
                ) == old(self).objects@ && (final(self).obj(d) matches ObjectData::Domain(dd)
                    && dd.definitions@.len() == 0 && dd.parent == parent),
                Err(e) => e == Error::TypeError && *final(self) == *old(self),
            },
    {
        if let Some(p) = parent {
            if !self.is_domain(p) {
                return Err(Error::TypeError);
            }
        }
        let data = ObjectData::Domain(
            DomainObjectData {
                base: ScriptObjectData::base_new(None, None),
                definitions: Vec::new(),
                parent,
            },
        );
        let d = self.allocate(data);
        proof {
            assert(self.objects@.take(d.index as int) =~= old(self).objects@);
        }
        Ok(d)
    }

    /// Allocates a plain script object bound to `class` and `proto`;
    /// `TypeError` unless `class` is a class object and `proto` an object.
    pub fn script_allocator(&mut self, class: ObjRef, proto: ObjRef) -> (r: Result<ObjRef, Error>)
        requires
            old(self).wf(),
        ensures
            final(self).wf(),
            r is Ok <==> (old(self).valid(class) && old(self).obj(class) is Class && old(self).valid(
                proto,
            )),
            match r {
                Ok(o) => o.index == old(self).objects@.len() && final(self).objects@.len()
                    == old(self).objects@.len() + 1 && final(self).objects@.take(
                    o.index as int,
                ) == old(self).objects@ && final(self).obj(o) is Script && base_of(
                    final(self).obj(o),
                ).prototype == Some(proto) && base_of(final(self).obj(o)).class == Some(class),
                Err(e) => e == Error::TypeError && *final(self) == *old(self),
            },
    {
        if !self.is_class(class) || !self.is_valid(proto) {
            return Err(Error::TypeError);
        }
        let data = ObjectData::Script(ScriptObjectData::base_new(Some(proto), Some(class)));
        let o = self.allocate(data);
        proof {
            assert(self.objects@.take(o.index as int) =~= old(self).objects@);
        }
        Ok(o)
    }

    /// Builds a prototype-chain layer over `this`: a new object of the same
    /// variant whose prototype is `this`, with no class link and a fresh,
    /// default native payload; `TypeError` when `this` is no object.
    pub fn derive(&mut self, this: ObjRef) -> (r: Result<ObjRef, Error>)
        requires
            old(self).wf(),
        ensures
            final(self).wf(),
            r is Ok <==> old(self).valid(this),
            match r {
                Ok(o) => o.index == old(self).objects@.len() && final(self).objects@.len()
                    == old(self).objects@.len() + 1 && final(self).objects@.take(
                    o.index as int,
                ) == old(self).objects@ && derived_from(final(self).obj(o), old(self).obj(this), this),
                Err(e) => e == Error::TypeError && *final(self) == *old(self),
            },
    {
        if !self.is_valid(this) {
            return Err(Error::TypeError);
        }
        let base = ScriptObjectData::base_new(Some(this), None);
        let data = match &self.objects[this.index] {
            ObjectData::Script(_) => ObjectData::Script(base),
            ObjectData::Class(_) => ObjectData::Class(
                ClassObjectData { base, definition: None, superclass: None },
            ),
            ObjectData::Domain(_) => ObjectData::Domain(
                DomainObjectData { base, definitions: Vec::new(), parent: None },
            ),
            ObjectData::Date(_) => ObjectData::Date(DateObjectData { base, date_time: None }),
        };
        let o = self.allocate(data);
        proof {
            assert(self.objects@.take(o.index as int) =~= old(self).objects@);
        }
        Ok(o)
    }

    /// The class object that allocated `obj`, if any.
    pub fn instance_of(&self, obj: ObjRef) -> (r: Option<ObjRef>)
        requires
            self.valid(obj),
        ensures
            r == base_of(self.obj(obj)).class,
    {
        match &self.objects[obj.index] {
            ObjectData::Script(b) => b.class,
            ObjectData::Class(c) => c.base.class,
            ObjectData::Domain(d) => d.base.class,
            ObjectData::Date(d) => d.base.class,
        }
    }

    /// The prototype of `obj`, if any.
    pub fn prototype(&self, obj: ObjRef) -> (r: Option<ObjRef>)
        requires
            self.valid(obj),
        ensures
            r == base_of(self.obj(obj)).prototype,
    {
        match &self.objects[obj.index] {
            ObjectData::Script(b) => b.prototype,
            ObjectData::Class(c) => c.base.prototype,
            ObjectData::Domain(d) => d.base.prototype,
            ObjectData::Date(d) => d.base.prototype,
        }
    }

    /// The hint that a primitive coercion of `obj` uses by default: `String`
    /// for a date, `Number` for every other variant.
    pub fn default_hint(&self, obj: ObjRef) -> (r: Hint)
        requires
            self.valid(obj),
        ensures
            r == (if self.obj(obj) is Date {
                Hint::String
            } else {
                Hint::Number
            }),
    {
        match &self.objects[obj.index] {
            ObjectData::Date(_) => Hint::String,
            _ => Hint::Number,
        }
    }
}

/// `o` is a fresh layer derived from `parent`, which stands in slot `this`:
/// same variant, prototype `this`, no class, no properties, default payload.
pub open spec fn derived_from(o: ObjectData, parent: ObjectData, this: ObjRef) -> bool {
    &&& base_of(o).prototype == Some(this)
    &&& base_of(o).class is None
    &&& base_of(o).properties@.len() == 0
    &&& match (o, parent) {
        (ObjectData::Script(_), ObjectData::Script(_)) => true,
        (ObjectData::Class(c), ObjectData::Class(_)) => c.definition is None && c.superclass is None,
        (ObjectData::Domain(d), ObjectData::Domain(_)) => d.definitions@.len() == 0
            && d.parent is None,
        (ObjectData::Date(d), ObjectData::Date(_)) => d.date_time is None,
        _ => false,
    }
}

} // verus!
