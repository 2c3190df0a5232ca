//! Application domains: hierarchical tables of definitions.
use crate::error::Error;
use crate::names::{QName, QNameView};
use crate::object::{slot_wf, DomainObjectData, ObjRef, ObjectArena, ObjectData, Value};
use vstd::prelude::*;

verus! {

/// The value of the first entry named `name`, if any.
pub open spec fn find_entry(entries: Seq<(QName, Value)>, name: QNameView) -> Option<Value>
    decreases entries.len(),
{
    if entries.len() == 0 {
        None
    } else if entries[0].0@ == name {
        Some(entries[0].1)
    } else {
        find_entry(entries.drop_first(), name)
    }
}

/// What `name` resolves to from domain `d`: its own definition, else the
/// parent domain's, recursively.
pub open spec fn defined_value(objs: Seq<ObjectData>, d: int, name: QNameView) -> Option<Value>
    decreases d,
{
    if 0 <= d < objs.len() {
        match objs[d] {
            ObjectData::Domain(dd) => match find_entry(dd.definitions@, name) {
                Some(v) => Some(v),
                None => match dd.parent {
                    Some(p) => if p.index < d {
                        defined_value(objs, p.index as int, name)
                    } else {
                        None
                    },
                    None => None,
                },
            },
            _ => None,
        }
    } else {
        None
    }
}

/// Looks `name` up among `entries`, first entry first.
pub fn find_in(entries: &Vec<(QName, Value)>, name: &QName) -> (r: Option<Value>)
    ensures
        r == find_entry(entries@, name@),
{
    let n = entries.len();
    let mut i: usize = 0;
    assert(entries@.subrange(0, n as int) =~= entries@);
    while i < n
        invariant
            n == entries@.len(),
            i <= n,
            find_entry(entries@, name@) == find_entry(entries@.subrange(i as int, n as int), name@),
        decreases n - i,
    {
        let ghost rest = entries@.subrange(i as int, n as int);
        assert(rest.drop_first() =~= entries@.subrange(i + 1, n as int));
        if entries[i].0.same_as(name) {
            return Some(entries[i].1.copy());
        }
        i = i + 1;
    }
    None
}

impl ObjectArena {
    /// Resolves `name` from `domain` up its parent chain; `ReferenceError`
    /// when no domain of the chain defines it.
    pub fn get_defined_value(&self, domain: ObjRef, name: &QName) -> (r: Result<Value, Error>)
        requires
            self.wf(),
            self.valid(domain),
            self.obj(domain) is Domain,
        ensures
            r == (match defined_value(self.objects@, domain.index as int, name@) {
                Some(v) => Ok(v),
                None => Err(Error::ReferenceError),
            }),
    {
        let mut cur = domain;
        loop
            invariant
                self.wf(),
                self.valid(cur),
                self.obj(cur) is Domain,
                defined_value(self.objects@, domain.index as int, name@) == defined_value(
                    self.objects@,
                    cur.index as int,
                    name@,
                ),
            decreases cur.index,
        {
            assert(slot_wf(self.objects@, cur.index as int));
            match &self.objects[cur.index] {
                ObjectData::Domain(d) => {
                    match find_in(&d.definitions, name) {
                        Some(v) => {
                            return Ok(v);
                        },
                        None => match d.parent {
                            Some(p) => {
                                cur = p;
                            },
                            None => {
                                return Err(Error::ReferenceError);
                            },
                        },
                    }
                },
                _ => {
                    return Err(Error::ReferenceError);
                },
            }
        }
    }

    /// Defines `name` as `value` in `domain`, shadowing any earlier
    /// definition of it there; `TypeError` when `domain` is not a domain.
    pub fn define(&mut self, domain: ObjRef, name: QName, value: Value) -> (r: Result<(), Error>)
        requires
            old(self).wf(),
        ensures
            final(self).wf(),
            r is Ok <==> (old(self).valid(domain) && old(self).obj(domain) is Domain),
            r is Err ==> r == Err::<(), Error>(Error::TypeError) && *final(self) == *old(self),
            r is Ok ==> final(self).objects@.len() == old(self).objects@.len() && (forall|i: int|
                0 <= i < old(self).objects@.len() && i != domain.index ==> final(self).objects@[i]
                    == old(self).objects@[i]) && (final(self).obj(domain) matches ObjectData::Domain(
                nd,
            ) && (old(self).obj(domain) matches ObjectData::Domain(od) && nd.base == od.base
                && nd.parent == od.parent && nd.definitions@ == seq![(name, value)]
                + od.definitions@)),
    {
        if !self.is_domain(domain) {
            return Err(Error::TypeError);
        }
        let i = domain.index;
        let ghost before = self.objects@;
        let ghost entry = (name, value);
        let old_data = self.objects.remove(i);
        let new_data = match old_data {
            ObjectData::Domain(d) => {
                let mut definitions = d.definitions;
                definitions.insert(0, (name, value));
                ObjectData::Domain(DomainObjectData { base: d.base, definitions, parent: d.parent })
            },
            other => other,
        };
        let ghost new_g = new_data;
        self.objects.insert(i, new_data);
        proof {
            let new_data = new_g;
            assert(self.objects@ =~= before.update(i as int, new_data));
            assert forall|j: int| 0 <= j < self.objects@.len() implies #[trigger] slot_wf(
                self.objects@,
                j,
            ) by {
                assert(slot_wf(before, j));
            }
            if let ObjectData::Domain(nd) = new_data {
                if let ObjectData::Domain(od) = before[i as int] {
                    assert(nd.definitions@ =~= seq![entry] + od.definitions@);
                }
            }
        }
        Ok(())
    }
}

} // verus!
