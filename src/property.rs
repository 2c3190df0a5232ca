//! Dynamic properties, read through the prototype chain.
use crate::domain::{find_entry, find_in};
use crate::error::Error;
use crate::names::{QName, QNameView};
use crate::object::{
    base_of, slot_wf, ClassObjectData, DateObjectData, DomainObjectData, ObjRef, ObjectArena,
    ObjectData, ScriptObjectData, Value,
};
use vstd::prelude::*;

verus! {

/// What reading `name` on object `o` gives: its own property, else what the
/// prototype gives, recursively.
pub open spec fn property_value(objs: Seq<ObjectData>, o: int, name: QNameView) -> Option<Value>
    decreases o,
{
    if 0 <= o < objs.len() {
        match find_entry(base_of(objs[o]).properties@, name) {
            Some(v) => Some(v),
            None => match base_of(objs[o]).prototype {
                Some(p) => if p.index < o {
                    property_value(objs, p.index as int, name)
                } else {
                    None
                },
                None => None,
            },
        }
    } else {
        None
    }
}

/// The variant `o` with `base` in place of its base state.
pub open spec fn with_base(o: ObjectData, base: ScriptObjectData) -> ObjectData {
    match o {
        ObjectData::Script(_) => ObjectData::Script(base),
        ObjectData::Class(c) => ObjectData::Class(
            ClassObjectData { base, definition: c.definition, superclass: c.superclass },
        ),
        ObjectData::Domain(d) => ObjectData::Domain(
            DomainObjectData { base, definitions: d.definitions, parent: d.parent },
        ),
        ObjectData::Date(d) => ObjectData::Date(DateObjectData { base, date_time: d.date_time }),
    }
}

impl ObjectArena {
    /// Reads property `name` of `obj`, falling back along the prototype
    /// chain; `undefined` when no object of the chain has it.
    pub fn get_property(&self, obj: ObjRef, name: &QName) -> (r: Value)
        requires
            self.wf(),
            self.valid(obj),
        ensures
            r == (match property_value(self.objects@, obj.index as int, name@) {
                Some(v) => v,
                None => Value::Undefined,
            }),
    {
        let mut cur = obj;
        loop
            invariant
                self.wf(),
                self.valid(cur),
                property_value(self.objects@, obj.index as int, name@) == property_value(
                    self.objects@,
                    cur.index as int,
                    name@,
                ),
            decreases cur.index,
        {
            assert(slot_wf(self.objects@, cur.index as int));
            let base = match &self.objects[cur.index] {
                ObjectData::Script(b) => b,
                ObjectData::Class(c) => &c.base,
                ObjectData::Domain(d) => &d.base,
                ObjectData::Date(d) => &d.base,
            };
            match find_in(&base.properties, name) {
                Some(v) => {
                    return v;
                },
                None => match base.prototype {
                    Some(p) => {
                        cur = p;
                    },
                    None => {
                        return Value::Undefined;
                    },
                },
            }
        }
    }

    /// Sets property `name` of `obj` itself to `value`, shadowing any earlier
    /// value; the other objects and the object's own links stay as they were.
    /// `TypeError` when `obj` is no object.
    pub fn set_property(&mut self, obj: ObjRef, name: QName, value: Value) -> (r: Result<(), Error>)
        requires
            old(self).wf(),
        ensures
            final(self).wf(),
            r is Ok <==> old(self).valid(obj),
            r is Err ==> r == Err::<(), Error>(Error::TypeError) && *final(self) == *old(self),
            r is Ok ==> final(self).objects@ == old(self).objects@.update(
                obj.index as int,
                with_base(
                    old(self).obj(obj),
                    ScriptObjectData {
                        prototype: base_of(old(self).obj(obj)).prototype,
                        class: base_of(old(self).obj(obj)).class,
                        properties: base_of(final(self).obj(obj)).properties,
                    },
                ),
            ) && base_of(final(self).obj(obj)).properties@ == seq![(name, value)] + base_of(
                old(self).obj(obj),
            ).properties@,
    {
        if !self.is_valid(obj) {
            return Err(Error::TypeError);
        }
        let i = obj.index;
        let ghost before = self.objects@;
        let ghost entry = (name, value);
        let old_data = self.objects.remove(i);
        let new_data = match old_data {
            ObjectData::Script(mut b) => {
                b.properties.insert(0, (name, value));
                ObjectData::Script(b)
            },
            ObjectData::Class(mut c) => {
                c.base.properties.insert(0, (name, value));
                ObjectData::Class(c)
            },
            ObjectData::Domain(mut d) => {
                d.base.properties.insert(0, (name, value));
                ObjectData::Domain(d)
            },
            ObjectData::Date(mut d) => {
                d.base.properties.insert(0, (name, value));
                ObjectData::Date(d)
            },
        };
        let ghost new_g = new_data;
        self.objects.insert(i, new_data);
        proof {
            let new_data = new_g;
            assert(self.objects@ =~= before.update(i as int, new_data));
            assert(base_of(new_data).properties@ =~= seq![entry] + base_of(
                before[i as int],
            ).properties@);
            assert forall|j: int| 0 <= j < self.objects@.len() implies #[trigger] slot_wf(
                self.objects@,
                j,
            ) by {
                assert(slot_wf(before, j));
            }
        }
        Ok(())
    }
}

} // verus!
