//! Reference-counted records for a single thread of control.
//!
//! The records lie in a heap that the owner of the handles keeps, and every
//! operation on a handle takes that heap. A count is changed by plain
//! arithmetic, which is enough because a change needs the heap exclusively.
//!
//! | shared pointer | here |
//! |---|---|
//! | construct | [`LocalHeap::construct`], [`LocalHeap::construct_default`] |
//! | dereference | [`LocalHeap::get`], [`LocalHeap::get_mut`] |
//! | clone | [`LocalHeap::share`] |
//! | reference count | [`LocalHeap::reference_count`] |
//! | format | [`LocalHeap::format`] |
//! | destroy | [`LocalHeap::destroy`] |
use crate::heap_view::{HeapView, PointerView, RecordView};
use crate::rendering::{debug_text, labelled_rendering, labelled_text};
use std::fmt::Debug;
use vstd::prelude::*;

verus! {

/// One of the owners of a record in a [`LocalHeap`].
///
/// A handle is made by [`LocalHeap::construct`] and [`LocalHeap::share`]
/// only, and given up by [`LocalHeap::destroy`], which takes it by value: it
/// cannot be copied, and it cannot be used once it is destroyed. A handle
/// that is dropped instead keeps its record in the heap until the heap goes.
pub struct LocalPointer {
    address: usize,
    id: Ghost<nat>,
}

impl View for LocalPointer {
    type V = PointerView;

    closed spec fn view(&self) -> PointerView {
        PointerView { address: self.address as nat, id: self.id@ }
    }
}

impl LocalPointer {
    /// The address of the record.
    pub fn address(&self) -> (address: usize)
        ensures
            address == self@.address,
    {
        self.address
    }
}

struct Tally {
    count: usize,
    owners: Ghost<Set<nat>>,
}

struct Record<T> {
    value: T,
    tally: Tally,
}

/// A heap of reference-counted records, counted with plain arithmetic.
///
/// Each record holds a value and the number of handles that own it, which is
/// never zero: the record is released by the handle that would leave it
/// without an owner. The heap releases what is left when it goes itself.
pub struct LocalHeap<T> {
    slots: Vec<Option<Record<T>>>,
    issued: Ghost<nat>,
}

impl<T> View for LocalHeap<T> {
    type V = HeapView<T>;

    closed spec fn view(&self) -> HeapView<T> {
        HeapView {
            records: Map::new(
                |address: nat| address < self.slots@.len() && self.slots@[address as int] is Some,
                |address: nat|
                    RecordView {
                        value: self.slots@[address as int]->0.value,
                        owners: self.slots@[address as int]->0.tally.owners@,
                    },
            ),
        }
    }
}

impl<T> LocalHeap<T> {
    /// The stored counts are the numbers of owners, and none is zero.
    pub closed spec fn wf(&self) -> bool {
        forall|address: int|
            0 <= address < self.slots@.len() ==> (#[trigger] self.slots@[address] matches Some(
                record,
            ) ==> {
                &&& record.tally.owners@.finite()
                &&& record.tally.owners@.len() == record.tally.count
                &&& record.tally.count >= 1
                &&& forall|id: nat| record.tally.owners@.contains(id) ==> id < self.issued@
            })
    }

    /// Every live record has an owner, and no more owners than a `usize`
    /// counts.
    pub proof fn law_counts_are_positive(&self)
        requires
            self.wf(),
        ensures
            self@.well_formed(),
            forall|address: nat| #[trigger] self@.live(address) ==> self@.count(address) <= usize::MAX,
    {
        assert forall|address: nat| #[trigger] self@.live(address) implies self@.owners(
            address,
        ).finite() && 1 <= self@.count(address) <= usize::MAX by {
        }
    }

    /// A heap without records.
    pub fn new() -> (heap: Self)
        ensures
            heap.wf(),
            heap@.records == Map::<nat, RecordView<T>>::empty(),
    {
        let heap = LocalHeap { slots: Vec::new(), issued: Ghost(0) };
        heap
    }

    /// Allocates a record for `value`, with the new handle as its only
    /// owner. The record takes the lowest address at which none lies.
    pub fn construct(&mut self, value: T) -> (pointer: LocalPointer)
        requires
            old(self).wf(),
        ensures
            final(self).wf(),
            !old(self)@.live(pointer@.address),
            forall|lower: nat| lower < pointer@.address ==> old(self)@.live(lower),
            final(self)@ == old(self)@.constructed(pointer@, value),
    {
        let mut address: usize = 0;
        while address < self.slots.len() && self.slots[address].is_some()
            invariant
                address <= self.slots.len(),
                forall|lower: int| 0 <= lower < address ==> self.slots@[lower] is Some,
            decreases self.slots.len() - address,
        {
            address += 1;
        }
        let ghost id = self.issued@;
        self.issued = Ghost(id + 1);
        let record = Record {
            value,
            tally: Tally { count: 1, owners: Ghost(Set::<nat>::empty().insert(id)) },
        };
        if address < self.slots.len() {
            self.slots[address] = Some(record);
        } else {
            self.slots.push(Some(record));
        }
        LocalPointer { address, id: Ghost(id) }
    }

    /// Allocates a record for the default value of `T`, as
    /// [`construct`](Self::construct) does for a given value.
    pub fn construct_default(&mut self) -> (pointer: LocalPointer) where T: Default
        requires
            old(self).wf(),
        ensures
            final(self).wf(),
            !old(self)@.live(pointer@.address),
            forall|lower: nat| lower < pointer@.address ==> old(self)@.live(lower),
            T::default.ensures((), final(self)@.value(pointer@.address)),
            final(self)@ == old(self)@.constructed(
                pointer@,
                final(self)@.value(pointer@.address),
            ),
    {
        self.construct(T::default())
    }

    /// Makes one more owner of the record of `pointer`. Nothing is
    /// allocated; the count goes up by one.
    pub fn share(&mut self, pointer: &LocalPointer) -> (alias: LocalPointer)
        requires
            old(self).wf(),
            old(self)@.holds(pointer@),
            old(self)@.count(pointer@.address) < usize::MAX,
        ensures
            final(self).wf(),
            alias@.address == pointer@.address,
            !old(self)@.owners(alias@.address).contains(alias@.id),
            final(self)@ == old(self)@.shared(alias@),
            final(self)@.count(alias@.address) == old(self)@.count(alias@.address) + 1,
    {
        let address = pointer.address;
        let ghost id = self.issued@;
        self.issued = Ghost(id + 1);
        match &mut self.slots[address] {
            Some(record) => {
                record.tally = Tally {
                    count: record.tally.count + 1,
                    owners: Ghost(record.tally.owners@.insert(id)),
                };
            },
            None => {},
        }
        LocalPointer { address, id: Ghost(id) }
    }

    /// Read access to the pointee.
    pub fn get(&self, pointer: &LocalPointer) -> (target: &T)
        requires
            self.wf(),
            self@.holds(pointer@),
        ensures
            *target == self@.value(pointer@.address),
    {
        match &self.slots[pointer.address] {
            Some(record) => &record.value,
            None => unreached(),
        }
    }

    /// Write access to the pointee. What the borrow leaves behind is what
    /// every owner of the record reads afterwards.
    pub fn get_mut(&mut self, pointer: &LocalPointer) -> (target: &mut T)
        requires
            old(self).wf(),
            old(self)@.holds(pointer@),
        ensures
            *target == old(self)@.value(pointer@.address),
            final(self).wf(),
            final(self)@ == old(self)@.written(pointer@.address, *final(target)),
    {
        match &mut self.slots[pointer.address] {
            Some(record) => &mut record.value,
            None => unreached(),
        }
    }

    /// Gives up `pointer`. The count of its record goes down by one; if that
    /// leaves no owner, the pointee's destructor runs and the record is
    /// released. Returns whether it was.
    pub fn destroy(&mut self, pointer: LocalPointer) -> (freed: bool)
        requires
            old(self).wf(),
            old(self)@.holds(pointer@),
        ensures
            final(self).wf(),
            final(self)@ == old(self)@.destroyed(pointer@),
            freed <==> old(self)@.count(pointer@.address) == 1,
            freed <==> !final(self)@.live(pointer@.address),
    {
        let address = pointer.address;
        let previous = self.reference_count(&pointer);
        if previous <= 1 {
            self.slots[address] = None;
        } else {
            match &mut self.slots[address] {
                Some(record) => {
                    record.tally = Tally {
                        count: previous - 1,
                        owners: Ghost(record.tally.owners@.remove(pointer.id@)),
                    };
                },
                None => {},
            }
        }
        previous <= 1
    }

    /// The number of handles that own the record of `pointer`.
    pub fn reference_count(&self, pointer: &LocalPointer) -> (count: usize)
        requires
            self.wf(),
            self@.holds(pointer@),
        ensures
            count == self@.count(pointer@.address),
            count >= 1,
    {
        match &self.slots[pointer.address] {
            Some(record) => record.tally.count,
            None => 0,
        }
    }

    /// The text `SharedPointer(..)` around the pointee's `Debug` rendering;
    /// `None` if the pointee's `Debug` impl fails.
    pub fn format(&self, pointer: &LocalPointer) -> (text: Option<String>) where T: Debug
        requires
            self.wf(),
            self@.holds(pointer@),
        ensures
            text matches Some(whole) ==> exists|pointee: Seq<char>|
                whole@ == labelled_text("SharedPointer"@, pointee),
    {
        match labelled_rendering("SharedPointer", debug_text(self.get(pointer))) {
            Ok(whole) => Some(whole),
            Err(_) => None,
        }
    }

    /// Whether no record is left: every handle that was made has been
    /// destroyed.
    pub fn is_empty(&self) -> (empty: bool)
        ensures
            empty <==> forall|address: nat| !self@.live(address),
    {
        let mut address: usize = 0;
        while address < self.slots.len()
            invariant
                address <= self.slots.len(),
                forall|earlier: int| 0 <= earlier < address ==> self.slots@[earlier] is None,
            decreases self.slots.len() - address,
        {
            if self.slots[address].is_some() {
                assert(self@.live(address as nat));
                return false;
            }
            address += 1;
        }
        true
    }

    /// Whether a record lies at the address of `pointer`.
    pub fn is_live(&self, pointer: &LocalPointer) -> (live: bool)
        ensures
            live == self@.live(pointer@.address),
    {
        pointer.address < self.slots.len() && self.slots[pointer.address].is_some()
    }
}

} // verus!
