//! Owned, reference-counted, type-checked handles around native objects.
//!
//! The native side is modeled explicitly: an [`ObjectHeap`] is the store of
//! native objects, each a slot with a class and a reference count, and a
//! [`TypeRegistry`] is the declared capability hierarchy — every class or
//! interface names the capabilities it extends, and all of them were
//! registered earlier. A [`SafeHandle`] owns exactly one reference-count
//! increment on one slot and carries the static capability it is viewed
//! through. The two construction paths differ in ownership: a handle taken
//! "from borrowed" adds its own increment, one taken "from owned" adopts
//! the increment the caller already held. Releasing a handle gives that one
//! increment back, whatever capability view it carried.

use vstd::prelude::*;

verus! {

/// One declared capability: the capability it extends, if any, and the
/// interface capabilities it implements. All of them were registered
/// earlier, so they have smaller indices.
pub struct TypeInfo {
    pub parent: Option<usize>,
    pub interfaces: Vec<usize>,
}

/// The declared capability hierarchy, indexed by registration order.
pub struct TypeRegistry {
    pub types: Vec<TypeInfo>,
}

impl TypeRegistry {
    /// Every capability names only earlier-registered capabilities as
    /// parent or interfaces.
    pub open spec fn wf(self) -> bool {
        forall|t: int|
            0 <= t < self.types@.len() ==> {
                &&& (self.types@[t].parent is Some ==> (self.types@[t].parent->0 as int) < t)
                &&& (forall|k: int|
                    0 <= k < self.types@[t].interfaces@.len() ==> (
                    self.types@[t].interfaces@[k] as int) < t)
            }
    }

    /// Whether `t` is a registered capability.
    pub open spec fn is_type(self, t: int) -> bool {
        0 <= t < self.types@.len()
    }

    /// Whether capability `t` declares capability `u`: they are the same,
    /// or `u` is reachable from `t` through parents and interfaces.
    pub open spec fn declares(self, t: int, u: int) -> bool
        decreases t,
    {
        t == u || (self.is_type(t) && t > 0 && {
            let info = self.types@[t];
            ||| (match info.parent {
                Some(p) => p < t && self.declares(p as int, u),
                None => false,
            })
            ||| (exists|k: int|
                0 <= k < info.interfaces@.len() && (info.interfaces@[k] as int) < t
                    && self.declares(info.interfaces@[k] as int, u))
        })
    }

    /// An empty hierarchy.
    pub fn new() -> (r: TypeRegistry)
        ensures
            r.types@.len() == 0,
            r.wf(),
    {
        TypeRegistry { types: Vec::new() }
    }

    /// Registers one capability extending `parent` and implementing
    /// `interfaces`, all registered earlier, and returns its index.
    pub fn register(&mut self, parent: Option<usize>, interfaces: Vec<usize>) -> (t: usize)
        requires
            old(self).wf(),
            old(self).types@.len() < usize::MAX,
            parent is Some ==> (parent->0 as int) < old(self).types@.len(),
            forall|k: int|
                0 <= k < interfaces@.len() ==> (interfaces@[k] as int) < old(self).types@.len(),
        ensures
            final(self).wf(),
            t == old(self).types@.len(),
            final(self).types@ == old(self).types@.push(TypeInfo { parent, interfaces }),
    {
        let t = self.types.len();
        self.types.push(TypeInfo { parent, interfaces });
        t
    }

    /// Whether capability `t` declares capability `u`, decided by walking
    /// the declared hierarchy.
    pub fn type_declares(&self, t: usize, u: usize) -> (r: bool)
        requires
            self.wf(),
            self.is_type(t as int),
        ensures
            r == self.declares(t as int, u as int),
        decreases t,
    {
        if t == u {
            return true;
        }
        let info = &self.types[t];
        let by_parent = match info.parent {
            Some(p) => self.type_declares(p, u),
            None => false,
        };
        if by_parent {
            return true;
        }
        let mut k: usize = 0;
        while k < info.interfaces.len()
            invariant
                self.wf(),
                self.is_type(t as int),
                info == self.types@[t as int],
                k <= info.interfaces@.len(),
                forall|j: int|
                    0 <= j < k ==> !self.declares(info.interfaces@[j] as int, u as int),
            decreases info.interfaces@.len() - k,
        {
            if self.type_declares(info.interfaces[k], u) {
                return true;
            }
            k = k + 1;
        }
        false
    }
}

/// One native object: its class capability and its reference count. A
/// count of zero means the object was freed.
pub struct ObjectSlot {
    pub class: usize,
    pub refs: u64,
}

/// The store of native objects, indexed by allocation order.
pub struct ObjectHeap {
    pub slots: Vec<ObjectSlot>,
}

/// What allocating a fresh object of class `class` leaves behind: one new
/// slot whose count is one.
pub open spec fn allocate_spec(h: Seq<ObjectSlot>, class: usize) -> Seq<ObjectSlot> {
    h.push(ObjectSlot { class, refs: 1 })
}

/// What one reference-count increment on `id` leaves behind.
pub open spec fn incref_spec(h: Seq<ObjectSlot>, id: int) -> Seq<ObjectSlot> {
    h.update(id, ObjectSlot { class: h[id].class, refs: (h[id].refs + 1) as u64 })
}

/// What one reference-count decrement on `id` leaves behind.
pub open spec fn decref_spec(h: Seq<ObjectSlot>, id: int) -> Seq<ObjectSlot> {
    h.update(id, ObjectSlot { class: h[id].class, refs: (h[id].refs - 1) as u64 })
}

impl ObjectHeap {
    /// An empty store.
    pub fn new() -> (r: ObjectHeap)
        ensures
            r.slots@.len() == 0,
    {
        ObjectHeap { slots: Vec::new() }
    }

    /// Whether `id` names an object that is still alive.
    pub open spec fn live(self, id: int) -> bool {
        0 <= id < self.slots@.len() && self.slots@[id].refs > 0
    }

    /// The class capability of object `id`.
    pub open spec fn class_of(self, id: int) -> int {
        self.slots@[id].class as int
    }

    /// The reference count of object `id`.
    pub open spec fn refs_of(self, id: int) -> int {
        self.slots@[id].refs as int
    }

    /// Allocates a fresh object of class `class` with one reference, owned
    /// by the caller.
    pub fn allocate(&mut self, class: usize) -> (id: usize)
        requires
            old(self).slots@.len() < usize::MAX,
        ensures
            id == old(self).slots@.len(),
            final(self).slots@ == allocate_spec(old(self).slots@, class),
            final(self).live(id as int),
    {
        let id = self.slots.len();
        self.slots.push(ObjectSlot { class, refs: 1 });
        id
    }

    /// The class capability of a live object.
    pub fn class_at(&self, id: usize) -> (c: usize)
        requires
            self.live(id as int),
        ensures
            c as int == self.class_of(id as int),
    {
        self.slots[id].class
    }

    /// The reference count of an object.
    pub fn refs_at(&self, id: usize) -> (r: u64)
        requires
            (id as int) < self.slots@.len(),
        ensures
            r as int == self.refs_of(id as int),
    {
        self.slots[id].refs
    }

    /// One increment of the native reference count.
    fn incref(&mut self, id: usize)
        requires
            old(self).live(id as int),
            old(self).refs_of(id as int) < u64::MAX,
        ensures
            final(self).slots@ == incref_spec(old(self).slots@, id as int),
    {
        let refs = self.slots[id].refs;
        let class = self.slots[id].class;
        self.slots.set(id, ObjectSlot { class, refs: refs + 1 });
    }

    /// One decrement of the native reference count; the object is freed
    /// when the count reaches zero.
    fn decref(&mut self, id: usize)
        requires
            old(self).live(id as int),
        ensures
            final(self).slots@ == decref_spec(old(self).slots@, id as int),
    {
        let refs = self.slots[id].refs;
        let class = self.slots[id].class;
        self.slots.set(id, ObjectSlot { class, refs: refs - 1 });
    }
}

/// A safe handle: one owned reference-count increment on one native object,
/// viewed through one declared capability.
#[derive(Debug)]
pub struct SafeHandle {
    pub object: usize,
    pub capability: usize,
}

/// The handle an upcast leaves behind: the same object under the ancestor
/// capability.
pub open spec fn upcast_spec(h: SafeHandle, ancestor: usize) -> SafeHandle {
    SafeHandle { object: h.object, capability: ancestor }
}

/// What a downcast returns: the same object under the target capability
/// when the object's class declares the target, the original handle
/// unchanged otherwise.
pub open spec fn downcast_spec(
    h: SafeHandle,
    heap: ObjectHeap,
    reg: TypeRegistry,
    target: usize,
) -> Result<SafeHandle, SafeHandle> {
    if reg.declares(heap.class_of(h.object as int), target as int) {
        Ok(SafeHandle { object: h.object, capability: target })
    } else {
        Err(h)
    }
}

impl SafeHandle {
    /// A handle is well formed when its object is alive, its capability is
    /// registered, and the object's class declares that capability.
    pub open spec fn wf(self, heap: ObjectHeap, reg: TypeRegistry) -> bool {
        &&& heap.live(self.object as int)
        &&& reg.is_type(self.capability as int)
        &&& reg.is_type(heap.class_of(self.object as int))
        &&& reg.declares(heap.class_of(self.object as int), self.capability as int)
    }

    /// Wraps a borrowed native reference: the caller keeps its own
    /// reference, so the handle takes one increment of its own.
    pub fn from_borrowed(
        heap: &mut ObjectHeap,
        reg: &TypeRegistry,
        object: usize,
        capability: usize,
    ) -> (h: SafeHandle)
        requires
            reg.wf(),
            old(heap).live(object as int),
            old(heap).refs_of(object as int) < u64::MAX,
            reg.is_type(capability as int),
            reg.is_type(old(heap).class_of(object as int)),
            reg.declares(old(heap).class_of(object as int), capability as int),
        ensures
            final(heap).slots@ == incref_spec(old(heap).slots@, object as int),
            h == (SafeHandle { object, capability }),
            h.wf(*final(heap), *reg),
    {
        heap.incref(object);
        SafeHandle { object, capability }
    }

    /// Wraps an owned native reference: the caller's reference is
    /// transferred to the handle and no increment is taken.
    pub fn from_owned(
        heap: &ObjectHeap,
        reg: &TypeRegistry,
        object: usize,
        capability: usize,
    ) -> (h: SafeHandle)
        requires
            reg.wf(),
            heap.live(object as int),
            reg.is_type(capability as int),
            reg.is_type(heap.class_of(object as int)),
            reg.declares(heap.class_of(object as int), capability as int),
        ensures
            h == (SafeHandle { object, capability }),
            h.wf(*heap, *reg),
    {
        SafeHandle { object, capability }
    }

    /// Gives the handle's one reference-count increment back; the native
    /// object is freed when the count reaches zero.
    pub fn release(self, heap: &mut ObjectHeap)
        requires
            old(heap).live(self.object as int),
        ensures
            final(heap).slots@ == decref_spec(old(heap).slots@, self.object as int),
    {
        heap.decref(self.object);
    }

    /// Views the handle through a declared ancestor capability: always
    /// succeeds, keeps the same object, and takes no extra reference.
    pub fn upcast(self, reg: &TypeRegistry, ancestor: usize) -> (h: SafeHandle)
        requires
            reg.wf(),
            reg.is_type(self.capability as int),
            reg.is_type(ancestor as int),
            reg.declares(self.capability as int, ancestor as int),
        ensures
            h == upcast_spec(self, ancestor),
    {
        SafeHandle { object: self.object, capability: ancestor }
    }

    /// Narrows the handle to a target capability by the object's runtime
    /// class: succeeds exactly when the class declares the target, and
    /// hands the handle back unchanged otherwise. No reference count moves
    /// either way.
    pub fn downcast(self, heap: &ObjectHeap, reg: &TypeRegistry, target: usize) -> (r: Result<
        SafeHandle,
        SafeHandle,
    >)
        requires
            reg.wf(),
            heap.live(self.object as int),
            reg.is_type(heap.class_of(self.object as int)),
            reg.is_type(target as int),
        ensures
            r == downcast_spec(self, *heap, *reg, target),
    {
        let class = heap.class_at(self.object);
        if reg.type_declares(class, target) {
            Ok(SafeHandle { object: self.object, capability: target })
        } else {
            Err(self)
        }
    }

    /// Whether two handles are the same native object. Handle equality is
    /// identity: the capability view does not matter.
    pub fn same_object(&self, other: &SafeHandle) -> (r: bool)
        ensures
            r == (self.object == other.object),
    {
        self.object == other.object
    }
}

impl PartialEq for SafeHandle {
    fn eq(&self, other: &SafeHandle) -> (r: bool) {
        self.object == other.object
    }
}

impl vstd::std_specs::cmp::PartialEqSpecImpl for SafeHandle {
    open spec fn obeys_eq_spec() -> bool {
        true
    }

    open spec fn eq_spec(&self, other: &SafeHandle) -> bool {
        self.object == other.object
    }
}

/// Wrapping an owned reference and releasing the handle makes exactly one
/// decrement: the owned construction leaves every count unchanged, and the
/// release takes one count from the wrapped object and touches nothing
/// else.
pub proof fn lemma_owned_then_release_net(h0: Seq<ObjectSlot>, id: int)
    requires
        0 <= id < h0.len(),
        h0[id].refs >= 1,
    ensures
        decref_spec(h0, id).len() == h0.len(),
        decref_spec(h0, id)[id].refs == h0[id].refs - 1,
        decref_spec(h0, id)[id].class == h0[id].class,
        forall|j: int| 0 <= j < h0.len() && j != id ==> decref_spec(h0, id)[j] == h0[j],
{
}

/// Wrapping a borrowed reference and releasing the handle is one increment
/// followed by one decrement: the heap ends exactly as it started.
pub proof fn lemma_borrowed_then_release_net(h0: Seq<ObjectSlot>, id: int)
    requires
        0 <= id < h0.len(),
        h0[id].refs < u64::MAX,
    ensures
        decref_spec(incref_spec(h0, id), id) == h0,
{
    let h1 = incref_spec(h0, id);
    assert(decref_spec(h1, id) =~= h0);
}

/// An upcast followed by a downcast back to the original capability always
/// succeeds and yields the original handle: the object and the capability
/// are both restored, so the result is the same handle by identity.
pub proof fn lemma_upcast_then_downcast(
    h: SafeHandle,
    heap: ObjectHeap,
    reg: TypeRegistry,
    ancestor: usize,
)
    requires
        reg.wf(),
        h.wf(heap, reg),
    ensures
        downcast_spec(upcast_spec(h, ancestor), heap, reg, h.capability) == Ok::<
            SafeHandle,
            SafeHandle,
        >(h),
{
    let up = upcast_spec(h, ancestor);
    assert(heap.class_of(up.object as int) == heap.class_of(h.object as int));
    assert(SafeHandle { object: h.object, capability: h.capability } == h);
}

/// A downcast to a capability the object's class does not declare always
/// fails and hands the original handle back unchanged.
pub proof fn lemma_downcast_unrelated(
    h: SafeHandle,
    heap: ObjectHeap,
    reg: TypeRegistry,
    target: usize,
)
    requires
        !reg.declares(heap.class_of(h.object as int), target as int),
    ensures
        downcast_spec(h, heap, reg, target) == Err::<SafeHandle, SafeHandle>(h),
{
}

} // verus!
