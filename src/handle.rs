//! Reference-counted handles to foreign objects.
//!
//! The framework hands out objects under one of two rules: a "create" or "copy"
//! call gives the caller a reference it owns, a "get" call lends one. A handle
//! owns exactly one reference: wrapping a created object takes it over, wrapping
//! a lent object first retains it, cloning retains once more, and releasing
//! gives the one reference back. Null never becomes a handle.
//!
//! The reference counts are kept in an [`ObjectTable`], which records for each
//! object its runtime type, its count, and how many retains and releases it has
//! received, so that every step of the discipline can be stated and checked.
//! The table is a model of the framework's reference counting, not a binding
//! to it: code that holds real framework objects does not go through it.
use vstd::prelude::*;

verus! {

/// The runtime type of a foreign object, as the type-identifier query reports it.
#[derive(Clone, Copy, Debug, PartialEq, Eq, Structural, Hash)]
pub enum ObjectKind {
    DynamicStore,
    Preferences,
    NetworkService,
    NetworkInterface,
    NetworkProtocol,
    NetworkSet,
    RunLoopSource,
    String,
    Number,
    Boolean,
    Data,
    Array,
    Dictionary,
}

/// How a foreign call hands over the object it returns.
#[derive(Clone, Copy, Debug, PartialEq, Eq, Structural)]
pub enum OwnershipRule {
    /// The caller receives a reference it owns and must release.
    Create,
    /// The caller receives a lent reference and must retain it to keep it.
    Get,
}

/// What the table knows of one object.
#[derive(Clone, Copy, Debug, PartialEq, Eq, Structural)]
pub struct ObjectRecord {
    pub kind: ObjectKind,
    pub retain_count: u64,
    pub retains: u64,
    pub releases: u64,
}

/// The objects of a foreign runtime with their reference counts. Address `0`
/// is null; the object in slot `i` lives at address `i + 1`.
pub struct ObjectTable {
    objects: Vec<ObjectRecord>,
}

/// The slot of the object at `address`.
pub open spec fn slot(address: usize) -> int {
    address - 1
}

/// Whether `address` names an object that still has a reference.
pub open spec fn is_live(objects: Seq<ObjectRecord>, address: usize) -> bool {
    &&& 1 <= address <= objects.len()
    &&& objects[slot(address)].retain_count > 0
}

/// Whether one more retain of the object at `address` fits the counters.
pub open spec fn can_retain(objects: Seq<ObjectRecord>, address: usize) -> bool {
    &&& objects[slot(address)].retain_count < u64::MAX
    &&& objects[slot(address)].retains < u64::MAX
}

/// Whether one more release of the object at `address` fits the counters.
pub open spec fn can_release(objects: Seq<ObjectRecord>, address: usize) -> bool {
    objects[slot(address)].releases < u64::MAX
}

/// The table after one retain of the object in slot `i`.
pub open spec fn retained(objects: Seq<ObjectRecord>, i: int) -> Seq<ObjectRecord> {
    objects.update(
        i,
        ObjectRecord {
            retain_count: (objects[i].retain_count + 1) as u64,
            retains: (objects[i].retains + 1) as u64,
            ..objects[i]
        },
    )
}

/// The table after one release of the object in slot `i`.
pub open spec fn released(objects: Seq<ObjectRecord>, i: int) -> Seq<ObjectRecord> {
    objects.update(
        i,
        ObjectRecord {
            retain_count: (objects[i].retain_count - 1) as u64,
            releases: (objects[i].releases + 1) as u64,
            ..objects[i]
        },
    )
}

impl View for ObjectTable {
    type V = Seq<ObjectRecord>;

    closed spec fn view(&self) -> Seq<ObjectRecord> {
        self.objects@
    }
}

impl ObjectTable {
    /// A table without objects.
    pub fn new() -> (r: ObjectTable)
        ensures
            r@ == Seq::<ObjectRecord>::empty(),
    {
        ObjectTable { objects: Vec::new() }
    }

    /// Makes an object of the given kind as a "create" call does: its one
    /// reference belongs to the caller. Returns its address.
    pub fn create(&mut self, kind: ObjectKind) -> (address: usize)
        requires
            old(self)@.len() < usize::MAX,
        ensures
            address == old(self)@.len() + 1,
            final(self)@ == old(self)@.push(
                ObjectRecord { kind, retain_count: 1, retains: 0, releases: 0 },
            ),
    {
        self.objects.push(ObjectRecord { kind, retain_count: 1, retains: 0, releases: 0 });
        self.objects.len()
    }

    /// What the table knows of the object at `address`; `None` for null and for
    /// an address that names no object.
    pub fn record(&self, address: usize) -> (r: Option<ObjectRecord>)
        ensures
            r == (if 1 <= address <= self@.len() {
                Some(self@[slot(address)])
            } else {
                None
            }),
    {
        if address == 0 || address > self.objects.len() {
            None
        } else {
            Some(self.objects[address - 1])
        }
    }

    /// The runtime type of the object at `address`, if it is live.
    pub fn kind_of(&self, address: usize) -> (r: Option<ObjectKind>)
        ensures
            r == (if is_live(self@, address) {
                Some(self@[slot(address)].kind)
            } else {
                None
            }),
    {
        if address == 0 || address > self.objects.len() {
            None
        } else if self.objects[address - 1].retain_count == 0 {
            None
        } else {
            Some(self.objects[address - 1].kind)
        }
    }

    /// The reference count of the object at `address`; 0 where there is none.
    pub fn retain_count(&self, address: usize) -> (r: u64)
        ensures
            r == (if 1 <= address <= self@.len() {
                self@[slot(address)].retain_count
            } else {
                0
            }),
    {
        if address == 0 || address > self.objects.len() {
            0
        } else {
            self.objects[address - 1].retain_count
        }
    }

    /// Adds one reference to a live object.
    pub fn retain(&mut self, address: usize)
        requires
            is_live(old(self)@, address),
            can_retain(old(self)@, address),
        ensures
            final(self)@ == retained(old(self)@, slot(address)),
    {
        let i = address - 1;
        let r = self.objects[i];
        self.objects.set(
            i,
            ObjectRecord { retain_count: r.retain_count + 1, retains: r.retains + 1, ..r },
        );
        assert(self.objects@ =~= retained(old(self)@, slot(address)));
    }

    /// Gives back one reference to a live object.
    pub fn release(&mut self, address: usize)
        requires
            is_live(old(self)@, address),
            can_release(old(self)@, address),
        ensures
            final(self)@ == released(old(self)@, slot(address)),
    {
        let i = address - 1;
        let r = self.objects[i];
        self.objects.set(
            i,
            ObjectRecord { retain_count: r.retain_count - 1, releases: r.releases + 1, ..r },
        );
        assert(self.objects@ =~= released(old(self)@, slot(address)));
    }
}

/// An owned reference to a live foreign object: it holds exactly one of the
/// object's references until it is released.
pub struct Handle {
    address: usize,
    kind: ObjectKind,
}

impl Handle {
    /// The address of the object.
    pub closed spec fn spec_address(&self) -> usize {
        self.address
    }

    /// The runtime type of the object.
    pub closed spec fn spec_kind(&self) -> ObjectKind {
        self.kind
    }

    /// The address of the object.
    pub fn address(&self) -> (r: usize)
        ensures
            r == self.spec_address(),
    {
        self.address
    }

    /// The runtime type of the object.
    pub fn kind(&self) -> (r: ObjectKind)
        ensures
            r == self.spec_kind(),
    {
        self.kind
    }

    /// Whether two handles refer to the same object: handles compare by the
    /// identity of the object, not by its contents.
    pub fn same_object(&self, other: &Handle) -> (r: bool)
        ensures
            r == (self.spec_address() == other.spec_address()),
    {
        self.address == other.address
    }

    /// Takes over the reference that a "create" or "copy" call returned.
    /// Issues no retain. `None` for null or an address that names no live object.
    pub fn wrap_owned(table: &ObjectTable, address: usize) -> (r: Option<Handle>)
        ensures
            r is Some <==> is_live(table@, address),
            r matches Some(h) ==> h.spec_address() == address && h.spec_kind()
                == table@[slot(address)].kind,
    {
        match table.kind_of(address) {
            Some(kind) => Some(Handle { address, kind }),
            None => None,
        }
    }

    /// Keeps a reference that a "get" call lent: issues one retain, after which
    /// the handle owns a reference like any other. `None`, and no retain, for
    /// null or an address that names no live object.
    pub fn wrap_borrowed(table: &mut ObjectTable, address: usize) -> (r: Option<Handle>)
        requires
            is_live(old(table)@, address) ==> can_retain(old(table)@, address),
        ensures
            r is Some <==> is_live(old(table)@, address),
            r matches Some(h) ==> {
                &&& h.spec_address() == address
                &&& h.spec_kind() == old(table)@[slot(address)].kind
                &&& final(table)@ == retained(old(table)@, slot(address))
            },
            r is None ==> final(table)@ == old(table)@,
    {
        match table.kind_of(address) {
            Some(kind) => {
                table.retain(address);
                Some(Handle { address, kind })
            },
            None => None,
        }
    }

    /// Wraps the result of a foreign call according to the rule that call follows.
    pub fn wrap(table: &mut ObjectTable, address: usize, rule: OwnershipRule) -> (r: Option<
        Handle,
    >)
        requires
            rule == OwnershipRule::Get && is_live(old(table)@, address) ==> can_retain(
                old(table)@,
                address,
            ),
        ensures
            r is Some <==> is_live(old(table)@, address),
            r matches Some(h) ==> h.spec_address() == address && h.spec_kind() == old(
                table,
            )@[slot(address)].kind,
            final(table)@ == (if rule == OwnershipRule::Get && r is Some {
                retained(old(table)@, slot(address))
            } else {
                old(table)@
            }),
    {
        match rule {
            OwnershipRule::Create => Handle::wrap_owned(table, address),
            OwnershipRule::Get => Handle::wrap_borrowed(table, address),
        }
    }

    /// A second handle to the same object: issues one retain.
    pub fn clone_in(&self, table: &mut ObjectTable) -> (r: Handle)
        requires
            is_live(old(table)@, self.spec_address()),
            can_retain(old(table)@, self.spec_address()),
        ensures
            r.spec_address() == self.spec_address(),
            r.spec_kind() == self.spec_kind(),
            final(table)@ == retained(old(table)@, slot(self.spec_address())),
    {
        table.retain(self.address);
        Handle { address: self.address, kind: self.kind }
    }

    /// Ends the handle: issues exactly one release. The handle is consumed, so
    /// it cannot be released twice.
    pub fn release(self, table: &mut ObjectTable)
        requires
            is_live(old(table)@, self.spec_address()),
            can_release(old(table)@, self.spec_address()),
        ensures
            final(table)@ == released(old(table)@, slot(self.spec_address())),
    {
        table.release(self.address);
    }

    /// Narrows the handle to the runtime type `expected`: `Ok` with the same
    /// handle when the object is of that type, otherwise `Err` with the handle
    /// given back untouched. Issues neither retain nor release.
    pub fn downcast(self, expected: ObjectKind) -> (r: Result<Handle, Handle>)
        ensures
            r is Ok <==> self.spec_kind() == expected,
            r matches Ok(h) ==> h == self,
            r matches Err(h) ==> h == self,
    {
        if self.kind == expected {
            Ok(self)
        } else {
            Err(self)
        }
    }
}

/// Cloning an owned handle and then releasing both handles gives back the
/// handle's own reference and the clone's: one retain and two releases, and the
/// count ends one below where it stood before the clone.
pub proof fn lemma_clone_then_release_both(objects: Seq<ObjectRecord>, address: usize)
    requires
        is_live(objects, address),
        can_retain(objects, address),
        objects[slot(address)].releases + 2 <= u64::MAX,
    ensures
        ({
            let i = slot(address);
            let after = released(released(retained(objects, i), i), i);
            &&& after.len() == objects.len()
            &&& after[i].kind == objects[i].kind
            &&& after[i].retain_count == objects[i].retain_count - 1
            &&& after[i].retains == objects[i].retains + 1
            &&& after[i].releases == objects[i].releases + 2
            &&& forall|j: int| 0 <= j < objects.len() && j != i ==> after[j] == objects[j]
        }),
{
}

/// Keeping a lent reference, cloning that handle, and releasing both handles
/// leaves the object's count exactly where it was: two retains (the keeping one
/// and the clone's) and two releases.
pub proof fn lemma_borrow_clone_release_balanced(objects: Seq<ObjectRecord>, address: usize)
    requires
        is_live(objects, address),
        objects[slot(address)].retain_count + 2 <= u64::MAX,
        objects[slot(address)].retains + 2 <= u64::MAX,
        objects[slot(address)].releases + 2 <= u64::MAX,
    ensures
        ({
            let i = slot(address);
            let after = released(released(retained(retained(objects, i), i), i), i);
            &&& after.len() == objects.len()
            &&& after[i].kind == objects[i].kind
            &&& after[i].retain_count == objects[i].retain_count
            &&& after[i].retains == objects[i].retains + 2
            &&& after[i].releases == objects[i].releases + 2
            &&& forall|j: int| 0 <= j < objects.len() && j != i ==> after[j] == objects[j]
        }),
{
}

} // verus!
