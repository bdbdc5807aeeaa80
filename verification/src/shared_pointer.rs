//! The shared pointer for use across threads.
use crate::rendering::{debug_text, labelled_rendering, labelled_text};
use std::fmt::{Debug, Error, Formatter};
use std::sync::Arc;
use vstd::prelude::*;

verus! {

/// One of the owners of a reference-counted record that holds a `T`.
///
/// The record keeps the value and the number of its handles. The count is
/// kept with atomic operations, so handles to one record may live on
/// different threads. It starts at one, each clone adds one, each handle
/// that goes out of scope takes one away, and the handle that takes the last
/// one away runs the pointee's destructor and releases the record.
///
/// Access is read-only. Where the owners want to change the pointee, they
/// put a lock of their own in the record.
pub struct SharedPointer<T>(Arc<T>);

impl<T> View for SharedPointer<T> {
    type V = T;

    /// The pointee.
    closed spec fn view(&self) -> T {
        *self.0
    }
}

/// `Arc::clone`: one more handle to the same allocation, so to the same
/// value. The allocation's strong count goes up by one; a count beyond
/// `isize::MAX` aborts the process.
#[verifier::external_body]
pub(crate) fn another_handle<T>(record: &Arc<T>) -> (alias: Arc<T>)
    ensures
        *alias == **record,
{
    Arc::clone(record)
}

/// `Arc::strong_count`: the number of handles to the allocation at some
/// moment of the call. The handle that asks is one of them.
#[verifier::external_body]
fn strong_count<T>(record: &Arc<T>) -> (count: usize)
    ensures
        count >= 1,
{
    Arc::strong_count(record)
}

/// `Arc::ptr_eq`: whether both handles point to one allocation. If they do,
/// they point to one value.
#[verifier::external_body]
fn same_allocation<T>(left: &Arc<T>, right: &Arc<T>) -> (same: bool)
    ensures
        same ==> **left == **right,
{
    Arc::ptr_eq(left, right)
}

impl<T> SharedPointer<T> {
    /// Allocates a record that holds `value` and a count of one.
    pub fn new(value: T) -> (pointer: Self)
        ensures
            pointer@ == value,
    {
        SharedPointer(Arc::new(value))
    }

    /// The number of handles that own the record right now. Other threads
    /// may clone and drop handles at any time, so this is for inspection
    /// only.
    pub fn reference_count(&self) -> (count: usize)
        ensures
            count >= 1,
    {
        strong_count(&self.0)
    }

    /// Whether both handles own the same record.
    pub fn same_record(&self, other: &Self) -> (same: bool)
        ensures
            same ==> self@ == other@,
    {
        same_allocation(&self.0, &other.0)
    }

    /// The text `SharedPointer(..)` around the pointee's `Debug` rendering, or the
    /// error of a pointee whose `Debug` impl fails.
    fn render(&self) -> (text: Result<String, Error>) where T: Debug
        ensures
            text matches Ok(whole) ==> exists|pointee: Seq<char>|
                whole@ == labelled_text("SharedPointer"@, pointee),
    {
        labelled_rendering("SharedPointer", debug_text(&*self.0))
    }

    /// The text `SharedPointer(..)` around the pointee's `Debug` rendering; `None`
    /// if the pointee's `Debug` impl fails.
    pub fn format(&self) -> (text: Option<String>) where T: Debug
        ensures
            text matches Some(whole) ==> exists|pointee: Seq<char>|
                whole@ == labelled_text("SharedPointer"@, pointee),
    {
        match self.render() {
            Ok(whole) => Some(whole),
            Err(_) => None,
        }
    }
}

impl<T: Default> Default for SharedPointer<T> {
    /// A record that holds the default value of `T`, with a count of one.
    fn default() -> (pointer: Self)
        ensures
            T::default.ensures((), pointer@),
    {
        SharedPointer::new(T::default())
    }
}

impl<T> Clone for SharedPointer<T> {
    /// One more handle to the same record. Nothing is allocated and the
    /// pointee is not cloned.
    fn clone(&self) -> (alias: Self)
        ensures
            alias@ == self@,
    {
        SharedPointer(another_handle(&self.0))
    }
}

impl<T> AsRef<T> for SharedPointer<T> {
    fn as_ref(&self) -> (target: &T)
        ensures
            *target == self@,
    {
        &*self.0
    }
}

impl<T> core::ops::Deref for SharedPointer<T> {
    type Target = T;

    fn deref(&self) -> (target: &T)
        ensures
            *target == self@,
    {
        &*self.0
    }
}

impl<T: Debug> Debug for SharedPointer<T> {
    /// Writes the text of [`format`](SharedPointer::format), or hands on the error
    /// of a pointee whose `Debug` impl fails.
    fn fmt(&self, formatter: &mut Formatter<'_>) -> Result<(), Error> {
        match self.render() {
            Ok(whole) => formatter.write_str(whole.as_str()),
            Err(error) => Err(error),
        }
    }
}

} // verus!
