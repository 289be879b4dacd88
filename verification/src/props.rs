//! Property bags and the single validated construction call.
//!
//! A builder accumulates named, typed property values; constructing the
//! native object is one call that first validates every accumulated name
//! against the target class's registered schema. Validation happens before
//! anything is allocated: a bag holding an unknown name is rejected with
//! the first such name and the heap is left exactly as it was, so a failed
//! construction leaks nothing. A valid bag allocates exactly one object
//! and hands back its owned handle.

use vstd::prelude::*;
use vstd::string::StringExecFns;
use crate::handle::ObjectHeap;
use crate::handle::SafeHandle;
use crate::handle::TypeRegistry;
use crate::handle::allocate_spec;

verus! {

/// One typed property value. Fractions stand in for the native
/// floating-point properties, counted in `1/65535` units of the unit
/// interval; native enumeration and object-valued properties are carried
/// as their codes and object indices.
pub enum PropValue {
    Bool(bool),
    Int(i32),
    Uint(u32),
    Text(String),
    TextList(Vec<String>),
    ObjectRef(usize),
    Fraction(u16),
    EnumCode(u32),
}

/// One named property entry.
pub struct Property {
    pub name: String,
    pub value: PropValue,
}

/// How one stored entry relates an old bag to a new one: if the name was
/// present, its first entry now holds `value` and nothing else moved;
/// otherwise the entry was appended.
pub open spec fn is_set(
    olde: Seq<Property>,
    newe: Seq<Property>,
    name: Seq<char>,
    value: PropValue,
) -> bool {
    let n = olde.len();
    if exists|j: int| 0 <= j < n && olde[j].name@ == name {
        &&& newe.len() == n
        &&& exists|j: int|
            #![auto]
            0 <= j < n && olde[j].name@ == name && (forall|i2: int|
                0 <= i2 < j ==> olde[i2].name@ != name) && newe[j].name@ == name && newe[j].value
                == value && (forall|i2: int| 0 <= i2 < n && i2 != j ==> newe[i2] == olde[i2])
    } else {
        &&& newe.len() == n + 1
        &&& newe[n as int].name@ == name
        &&& newe[n as int].value == value
        &&& forall|i2: int| 0 <= i2 < n ==> newe[i2] == olde[i2]
    }
}

/// An ordered property bag, consumed exactly once by construction.
pub struct PropertySet {
    pub entries: Vec<Property>,
}

impl PropertySet {
    /// The names of the accumulated entries, in order.
    pub open spec fn names(self) -> Seq<Seq<char>> {
        self.entries@.map(|i: int, p: Property| p.name@)
    }

    /// No name occurs twice.
    pub open spec fn wf(self) -> bool {
        forall|j1: int, j2: int|
            0 <= j1 < j2 < self.names().len() ==> self.names()[j1] != self.names()[j2]
    }

    /// An empty bag.
    pub fn new() -> (r: PropertySet)
        ensures
            r.entries@.len() == 0,
            r.wf(),
    {
        PropertySet { entries: Vec::new() }
    }

    /// Stores `value` under `name`, overwriting the value of an entry
    /// already holding that name.
    pub fn set(&mut self, name: &str, value: PropValue)
        requires
            old(self).wf(),
        ensures
            is_set(old(self).entries@, final(self).entries@, name@, value),
            final(self).wf(),
    {
        let n = self.entries.len();
        let mut k: usize = 0;
        while k < n
            invariant
                old(self).wf(),
                self == old(self),
                n == self.entries@.len(),
                k <= n,
                forall|j: int| 0 <= j < k ==> old(self).entries@[j].name@ != name@,
            decreases n - k,
        {
            if crate::text::str_eq(self.entries[k].name.as_str(), name) {
                let kept = self.entries[k].name.clone();
                self.entries.set(k, Property { name: kept, value });
                proof {
                    let olde = old(self).entries@;
                    let newe = self.entries@;
                    let kk = k as int;
                    assert(0 <= kk < n && olde[kk].name@ == name@);
                    assert(newe[kk].name@ == name@ && newe[kk].value == value);
                    assert(forall|i2: int| 0 <= i2 < kk ==> olde[i2].name@ != name@);
                    assert(forall|i2: int| 0 <= i2 < n && i2 != kk ==> newe[i2] == olde[i2]);
                    assert(exists|j: int|
                        #![auto]
                        0 <= j < n && olde[j].name@ == name@ && (forall|i2: int|
                            0 <= i2 < j ==> olde[i2].name@ != name@) && newe[j].name@ == name@
                            && newe[j].value == value && (forall|i2: int|
                            0 <= i2 < n && i2 != j ==> newe[i2] == olde[i2]));
                    assert forall|j1: int, j2: int|
                        0 <= j1 < j2 < self.names().len() implies self.names()[j1]
                        != self.names()[j2] by {
                        assert(old(self).names()[j1] != old(self).names()[j2]);
                    }
                }
                return ;
            }
            k = k + 1;
        }
        let owned = String::from_str(name);
        self.entries.push(Property { name: owned, value });
        proof {
            assert forall|j1: int, j2: int|
                0 <= j1 < j2 < self.names().len() implies self.names()[j1] != self.names()[j2] by {
                if j2 < n {
                    assert(old(self).names()[j1] != old(self).names()[j2]);
                } else {
                    assert(old(self).entries@[j1].name@ != name@);
                }
            }
        }
    }

    /// The number of accumulated entries.
    pub fn len(&self) -> (n: usize)
        ensures
            n == self.entries@.len(),
    {
        self.entries.len()
    }

    /// Performs the one native construction call: validates every name
    /// against `schema`, and only then allocates one object of `class`
    /// with one owned reference, handing the whole accumulated set to it
    /// atomically: the constructed object carries exactly this bag. An
    /// unknown name rejects the bag with the first such name, before
    /// anything is allocated: the heap is left unchanged.
    pub fn build_object(
        self,
        schema: &Schema,
        heap: &mut ObjectHeap,
        reg: &TypeRegistry,
        class: usize,
    ) -> (r: Result<ConstructedObject, BuildError>)
        requires
            reg.wf(),
            reg.is_type(class as int),
            old(heap).slots@.len() < usize::MAX,
        ensures
            ({
                let names = self.names();
                match r {
                    Ok(obj) => {
                        &&& forall|j: int| 0 <= j < names.len() ==> schema.registered(names[j])
                        &&& final(heap).slots@ == allocate_spec(old(heap).slots@, class)
                        &&& obj.handle == (SafeHandle {
                            object: old(heap).slots@.len() as usize,
                            capability: class,
                        })
                        &&& obj.handle.wf(*final(heap), *reg)
                        &&& obj.properties == self
                    },
                    Err(e) => {
                        &&& *final(heap) == *old(heap)
                        &&& exists|j: int|
                            #![auto]
                            0 <= j < names.len() && !schema.registered(names[j]) && (forall|
                                i2: int,
                            |
                                0 <= i2 < j ==> schema.registered(names[i2])) && e.name@ == names[j]
                    },
                }
            }),
    {
        let n = self.entries.len();
        let mut k: usize = 0;
        while k < n
            invariant
                n == self.entries@.len(),
                k <= n,
                forall|j: int| 0 <= j < k ==> schema.registered(self.names()[j]),
            decreases n - k,
        {
            if !schema.contains(self.entries[k].name.as_str()) {
                let name = self.entries[k].name.clone();
                proof {
                    let names = self.names();
                    let kk = k as int;
                    assert(names[kk] == self.entries@[kk].name@);
                    assert(0 <= kk < names.len() && !schema.registered(names[kk]) && (forall|
                        i2: int,
                    |
                        0 <= i2 < kk ==> schema.registered(names[i2])) && name@ == names[kk]);
                    assert(exists|j: int|
                        #![auto]
                        0 <= j < names.len() && !schema.registered(names[j]) && (forall|i2: int|
                            0 <= i2 < j ==> schema.registered(names[i2])) && name@ == names[j]);
                }
                return Err(BuildError { name });
            }
            k = k + 1;
        }
        let object = heap.allocate(class);
        let handle = SafeHandle::from_owned(heap, reg, object, class);
        Ok(ConstructedObject { handle, properties: self })
    }
}

/// A constructed native object: the owned handle and the property set the
/// one construction call applied, atomically, at creation.
pub struct ConstructedObject {
    pub handle: SafeHandle,
    pub properties: PropertySet,
}

/// The registered property names of one object class.
pub struct Schema {
    pub names: Vec<String>,
}

impl Schema {
    /// Whether `name` is registered.
    pub open spec fn registered(self, name: Seq<char>) -> bool {
        exists|k: int| 0 <= k < self.names@.len() && self.names@[k]@ == name
    }

    /// An empty schema.
    pub fn new() -> (r: Schema)
        ensures
            r.names@.len() == 0,
    {
        Schema { names: Vec::new() }
    }

    /// Registers one property name.
    pub fn register(&mut self, name: &str)
        ensures
            final(self).names@.len() == old(self).names@.len() + 1,
            final(self).names@[old(self).names@.len() as int]@ == name@,
            forall|k: int|
                0 <= k < old(self).names@.len() ==> final(self).names@[k] == old(self).names@[k],
            forall|n: Seq<char>|
                final(self).registered(n) == (old(self).registered(n) || n == name@),
    {
        let owned = String::from_str(name);
        self.names.push(owned);
        proof {
            assert forall|n: Seq<char>|
                final(self).registered(n) == (old(self).registered(n) || n == name@) by {
                if old(self).registered(n) {
                    let k = choose|k: int|
                        0 <= k < old(self).names@.len() && old(self).names@[k]@ == n;
                    assert(self.names@[k]@ == n);
                } else if n == name@ {
                    assert(self.names@[old(self).names@.len() as int]@ == n);
                } else {
                    if self.registered(n) {
                        let k = choose|k: int| 0 <= k < self.names@.len() && self.names@[k]@ == n;
                        if k < old(self).names@.len() {
                            assert(old(self).names@[k]@ == n);
                        }
                    }
                }
            }
        }
    }

    /// Whether `name` is registered, decided by scanning the table.
    pub fn contains(&self, name: &str) -> (r: bool)
        ensures
            r == self.registered(name@),
    {
        let n = self.names.len();
        let mut k: usize = 0;
        while k < n
            invariant
                n == self.names@.len(),
                k <= n,
                forall|j: int| 0 <= j < k ==> self.names@[j]@ != name@,
            decreases n - k,
        {
            if crate::text::str_eq(self.names[k].as_str(), name) {
                return true;
            }
            k = k + 1;
        }
        false
    }
}

/// Rejection of a property bag at construction time: the first accumulated
/// name the target schema does not register.
#[derive(Debug)]
pub struct BuildError {
    pub name: String,
}

} // verus!
