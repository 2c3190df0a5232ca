//! The date variant.
use crate::activation::Activation;
use crate::error::Error;
use crate::object::{
    base_of, derived_from, DateObjectData, Hint, ObjRef, ObjectArena, ObjectData,
    ScriptObjectData, UtcTimestamp,
};
use vstd::prelude::*;

verus! {

/// Allocates a date object bound to `class` and `proto`, holding the invalid
/// date; `TypeError` unless `class` is a class object and `proto` an object.
pub fn date_allocator(class: ObjRef, proto: ObjRef, activation: &mut Activation) -> (r: Result<
    ObjRef,
    Error,
>)
    requires
        old(activation).arena.wf(),
    ensures
        final(activation).arena.wf(),
        final(activation).globals == old(activation).globals,
        final(activation).time_since_launch_ms == old(activation).time_since_launch_ms,
        r is Ok <==> (old(activation).arena.valid(class) && old(activation).arena.obj(class) is Class
            && old(activation).arena.valid(proto)),
        match r {
            Ok(o) => o.index == old(activation).arena.objects@.len()
                && final(activation).arena.objects@.len() == old(activation).arena.objects@.len()
                + 1 && final(activation).arena.objects@.take(o.index as int) == old(
                activation,
            ).arena.objects@ && (final(activation).arena.obj(o) matches ObjectData::Date(d)
                && d.date_time is None && d.base.prototype == Some(proto) && d.base.class == Some(
                class,
            ) && d.base.properties@.len() == 0),
            Err(e) => e == Error::TypeError && final(activation).arena == old(activation).arena,
        },
{
    if !activation.arena.is_class(class) || !activation.arena.is_valid(proto) {
        return Err(Error::TypeError);
    }
    let base = ScriptObjectData::base_new(Some(proto), Some(class));
    let data = ObjectData::Date(DateObjectData { base, date_time: None });
    let ghost before = activation.arena.objects@;
    let len = activation.arena.objects.len();
    let o = ObjRef { index: len };
    activation.arena.objects.push(data);
    proof {
        assert(activation.arena.objects@.take(o.index as int) =~= before);
        assert forall|i: int| 0 <= i < activation.arena.objects@.len() implies
            #[trigger] crate::object::slot_wf(activation.arena.objects@, i) by {
            if i < before.len() {
                assert(crate::object::slot_wf(before, i));
                assert(activation.arena.objects@[i] == before[i]);
            }
        }
    }
    Ok(o)
}

/// A handle on an object of the date variant.
#[derive(Debug, Clone, Copy, PartialEq, Eq, Structural)]
pub struct DateObject(pub ObjRef);

/// The date held by a date variant.
pub open spec fn date_of(o: ObjectData) -> Option<UtcTimestamp> {
    match o {
        ObjectData::Date(d) => d.date_time,
        _ => None,
    }
}

impl DateObject {
    /// This handle names a date object of `arena`.
    pub open spec fn inv(self, arena: ObjectArena) -> bool {
        arena.valid(self.0) && arena.obj(self.0) is Date
    }

    /// The date held, `None` for the invalid date.
    pub fn date_time(self, arena: &ObjectArena) -> (r: Option<UtcTimestamp>)
        requires
            self.inv(*arena),
        ensures
            r == date_of(arena.obj(self.0)),
    {
        match &arena.objects[self.0.index] {
            ObjectData::Date(d) => d.date_time,
            _ => None,
        }
    }

    /// Replaces the date held, leaving every other part of every object as it was.
    pub fn set_date_time(self, mc: &mut ObjectArena, date_time: Option<UtcTimestamp>)
        requires
            self.inv(*old(mc)),
            old(mc).wf(),
        ensures
            final(mc).wf(),
            final(mc).objects@ == old(mc).objects@.update(
                self.0.index as int,
                ObjectData::Date(
                    DateObjectData { base: base_of(old(mc).obj(self.0)), date_time },
                ),
            ),
    {
        let i = self.0.index;
        let ghost before = mc.objects@;
        let old_data = mc.objects.remove(i);
        let new_data = match old_data {
            ObjectData::Date(d) => ObjectData::Date(DateObjectData { base: d.base, date_time }),
            other => other,
        };
        mc.objects.insert(i, new_data);
        proof {
            assert(mc.objects@ =~= before.update(i as int, new_data));
            assert forall|j: int| 0 <= j < mc.objects@.len() implies
                #[trigger] crate::object::slot_wf(mc.objects@, j) by {
                assert(crate::object::slot_wf(before, j));
            }
        }
    }

    /// The date as milliseconds since the epoch, `None` (not a number) for the invalid date.
    pub fn value_of(&self, arena: &ObjectArena) -> (r: Option<i64>)
        requires
            self.inv(*arena),
        ensures
            r == (match date_of(arena.obj(self.0)) {
                Some(t) => Some(t.millis),
                None => None,
            }),
    {
        match self.date_time(arena) {
            Some(t) => Some(t.millis),
            None => None,
        }
    }

    /// Dates convert to a string first.
    pub fn default_hint(&self) -> (r: Hint)
        ensures
            r == Hint::String,
    {
        Hint::String
    }

    /// Builds a prototype-chain layer over this date: a date object holding
    /// the invalid date, with this date as prototype and no class.
    pub fn derive(&self, activation: &mut Activation) -> (r: Result<ObjRef, Error>)
        requires
            self.inv(old(activation).arena),
            old(activation).arena.wf(),
        ensures
            final(activation).arena.wf(),
            final(activation).globals == old(activation).globals,
            final(activation).time_since_launch_ms == old(activation).time_since_launch_ms,
            r matches Ok(o) && o.index == old(activation).arena.objects@.len()
                && final(activation).arena.objects@.len() == old(activation).arena.objects@.len()
                + 1 && final(activation).arena.objects@.take(o.index as int) == old(
                activation,
            ).arena.objects@ && final(activation).arena.obj(o) is Date && derived_from(
                final(activation).arena.obj(o),
                old(activation).arena.obj(self.0),
                self.0,
            ),
    {
        activation.arena.derive(self.0)
    }
}

impl ObjectArena {
    /// The date view of `obj`, when it is a date object.
    pub fn as_date_object(&self, obj: ObjRef) -> (r: Option<DateObject>)
        requires
            self.valid(obj),
        ensures
            r == (if self.obj(obj) is Date {
                Some(DateObject(obj))
            } else {
                None
            }),
    {
        match &self.objects[obj.index] {
            ObjectData::Date(_) => Some(DateObject(obj)),
            _ => None,
        }
    }
}

} // verus!
