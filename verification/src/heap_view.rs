//! The reference-counting protocol, as contracts see it.
//!
//! A [`HeapView`] maps the address of each live record to its value and to the
//! set of handles that own it. The reference count of a record is the size of
//! that set. The four steps of the protocol are functions from one view to
//! the next, and the laws below them say what the steps add up to.
use vstd::prelude::*;

verus! {

/// What contracts see of a handle: where its record lies, and which of the
/// record's owners it is.
pub struct PointerView {
    pub address: nat,
    pub id: nat,
}

/// What contracts see of a record: the value, and the handles that own it.
pub struct RecordView<T> {
    pub value: T,
    pub owners: Set<nat>,
}

/// What contracts see of a heap: the live records by address.
#[verifier::ext_equal]
pub struct HeapView<T> {
    pub records: Map<nat, RecordView<T>>,
}

impl<T> HeapView<T> {
    /// A record lies at `address`.
    pub open spec fn live(self, address: nat) -> bool {
        self.records.dom().contains(address)
    }

    /// The value of the record at `address`.
    pub open spec fn value(self, address: nat) -> T {
        self.records[address].value
    }

    /// The handles that own the record at `address`.
    pub open spec fn owners(self, address: nat) -> Set<nat> {
        self.records[address].owners
    }

    /// The reference count: the number of handles that own the record at
    /// `address`.
    pub open spec fn count(self, address: nat) -> nat {
        self.owners(address).len()
    }

    /// `pointer` is one of the owners of a live record.
    pub open spec fn holds(self, pointer: PointerView) -> bool {
        self.live(pointer.address) && self.owners(pointer.address).contains(pointer.id)
    }

    /// Every live record has an owner, and finitely many of them.
    pub open spec fn well_formed(self) -> bool {
        forall|address: nat| #[trigger]
            self.live(address) ==> self.owners(address).finite() && self.count(address) >= 1
    }

    /// The heap after a record for `value` was made at the address of
    /// `pointer`, with `pointer` as its only owner.
    pub open spec fn constructed(self, pointer: PointerView, value: T) -> Self {
        HeapView {
            records: self.records.insert(
                pointer.address,
                RecordView { value, owners: set![pointer.id] },
            ),
        }
    }

    /// The heap after `alias` became one more owner of the record at its
    /// address.
    pub open spec fn shared(self, alias: PointerView) -> Self {
        HeapView {
            records: self.records.insert(
                alias.address,
                RecordView {
                    value: self.value(alias.address),
                    owners: self.owners(alias.address).insert(alias.id),
                },
            ),
        }
    }

    /// The heap after `pointer` was destroyed: its record has one owner
    /// fewer, and is gone if `pointer` was the last.
    pub open spec fn destroyed(self, pointer: PointerView) -> Self {
        if self.count(pointer.address) == 1 {
            HeapView { records: self.records.remove(pointer.address) }
        } else {
            HeapView {
                records: self.records.insert(
                    pointer.address,
                    RecordView {
                        value: self.value(pointer.address),
                        owners: self.owners(pointer.address).remove(pointer.id),
                    },
                ),
            }
        }
    }

    /// The heap after `value` was written to the record at `address`.
    pub open spec fn written(self, address: nat, value: T) -> Self {
        HeapView {
            records: self.records.insert(
                address,
                RecordView { value, owners: self.owners(address) },
            ),
        }
    }

    /// `other` has the records of `self`, but for the one at `address`.
    pub open spec fn same_elsewhere(self, other: Self, address: nat) -> bool {
        forall|elsewhere: nat|
            elsewhere != address ==> {
                &&& #[trigger] other.live(elsewhere) == self.live(elsewhere)
                &&& other.records[elsewhere] == self.records[elsewhere]
            }
    }

    /// A record is live exactly as long as some handle owns it: none is
    /// released under an owner, and none is kept without one.
    pub proof fn law_live_iff_owned(self, address: nat)
        requires
            self.well_formed(),
        ensures
            self.live(address) <==> exists|id: nat| self.holds(PointerView { address, id }),
    {
        if self.live(address) {
            let id = self.owners(address).choose();
            assert(self.holds(PointerView { address, id }));
        }
    }

    /// A new record holds the value it was made for and has one owner, the
    /// handle that was returned. The records that were there stay as they
    /// were, and so do their owners.
    pub proof fn law_construct(self, pointer: PointerView, value: T)
        requires
            self.well_formed(),
            !self.live(pointer.address),
        ensures
            self.constructed(pointer, value).well_formed(),
            self.constructed(pointer, value).holds(pointer),
            self.constructed(pointer, value).value(pointer.address) == value,
            self.constructed(pointer, value).count(pointer.address) == 1,
            self.same_elsewhere(self.constructed(pointer, value), pointer.address),
            forall|other: PointerView| #[trigger]
                self.holds(other) ==> self.constructed(pointer, value).holds(other),
    {
        let after = self.constructed(pointer, value);
        assert forall|address: nat| #[trigger] after.live(address) implies after.owners(
            address,
        ).finite() && after.count(address) >= 1 by {
            if address != pointer.address {
                assert(self.live(address));
            }
        }
    }

    /// After a clone both handles own the same record, read the same value
    /// and see the same count, which is one more than before. No other
    /// record changes.
    pub proof fn law_share(self, pointer: PointerView, alias: PointerView)
        requires
            self.well_formed(),
            self.holds(pointer),
            alias.address == pointer.address,
            !self.owners(pointer.address).contains(alias.id),
        ensures
            self.shared(alias).well_formed(),
            self.shared(alias).holds(pointer),
            self.shared(alias).holds(alias),
            self.shared(alias).value(alias.address) == self.value(pointer.address),
            self.shared(alias).count(alias.address) == self.count(pointer.address) + 1,
            self.same_elsewhere(self.shared(alias), pointer.address),
            forall|other: PointerView| #[trigger]
                self.holds(other) ==> self.shared(alias).holds(other),
    {
        let after = self.shared(alias);
        assert forall|address: nat| #[trigger] after.live(address) implies after.owners(
            address,
        ).finite() && after.count(address) >= 1 by {
            if address != pointer.address {
                assert(self.live(address));
            }
        }
    }

    /// A destroyed handle takes exactly one from the count of its record.
    /// The record is released when, and only when, that leaves none; until
    /// then the value stays and every other owner keeps the record. No other
    /// record changes.
    pub proof fn law_destroy(self, pointer: PointerView)
        requires
            self.well_formed(),
            self.holds(pointer),
        ensures
            self.destroyed(pointer).well_formed(),
            !self.destroyed(pointer).holds(pointer),
            self.destroyed(pointer).live(pointer.address) <==> self.count(pointer.address) > 1,
            self.destroyed(pointer).live(pointer.address) ==> {
                &&& self.destroyed(pointer).count(pointer.address) == self.count(pointer.address)
                    - 1
                &&& self.destroyed(pointer).value(pointer.address) == self.value(pointer.address)
            },
            self.same_elsewhere(self.destroyed(pointer), pointer.address),
            forall|other: PointerView|
                other != pointer && #[trigger] self.holds(other) && (other.address
                    != pointer.address || self.count(pointer.address) > 1) ==> self.destroyed(
                    pointer,
                ).holds(other),
    {
        let after = self.destroyed(pointer);
        assert forall|address: nat| #[trigger] after.live(address) implies after.owners(
            address,
        ).finite() && after.count(address) >= 1 by {
            if address != pointer.address {
                assert(self.live(address));
            }
        }
    }

    /// A clone that is destroyed again leaves the heap as it was before the
    /// clone: the count is back at its earlier value.
    pub proof fn law_share_then_destroy(self, pointer: PointerView, alias: PointerView)
        requires
            self.well_formed(),
            self.holds(pointer),
            alias.address == pointer.address,
            !self.owners(pointer.address).contains(alias.id),
        ensures
            self.shared(alias).destroyed(alias) == self,
    {
        assert(self.owners(pointer.address).insert(alias.id).remove(alias.id)
            =~= self.owners(pointer.address));
    }

    /// A write through one handle is what every owner of the record reads
    /// afterwards. The owners and the other records stay as they were.
    pub proof fn law_write(self, pointer: PointerView, value: T)
        requires
            self.well_formed(),
            self.holds(pointer),
        ensures
            self.written(pointer.address, value).well_formed(),
            self.written(pointer.address, value).value(pointer.address) == value,
            self.written(pointer.address, value).owners(pointer.address) == self.owners(
                pointer.address,
            ),
            self.same_elsewhere(self.written(pointer.address, value), pointer.address),
            forall|other: PointerView| #[trigger]
                self.holds(other) ==> self.written(pointer.address, value).holds(other),
    {
        let after = self.written(pointer.address, value);
        assert forall|address: nat| #[trigger] after.live(address) implies after.owners(
            address,
        ).finite() && after.count(address) >= 1 by {
            assert(self.live(address));
        }
    }
}

} // verus!
