//! The exclusive pointer: one handle, one heap block.
use crate::rendering::{debug_text, labelled_rendering, labelled_text};
use std::fmt::{Debug, Error, Formatter};
use vstd::prelude::*;

verus! {

/// Sole owner of one heap block that holds a `T`.
///
/// The block is allocated when the handle is made and released, after the
/// pointee's own destructor has run, when the handle goes out of scope. A
/// move hands the block on; nothing but [`Clone::clone`] makes a second one.
pub struct UniquePointer<T>(Box<T>);

impl<T> View for UniquePointer<T> {
    type V = T;

    /// The pointee.
    closed spec fn view(&self) -> T {
        *self.0
    }
}

impl<T> UniquePointer<T> {
    /// Allocates a block for `value` and moves it there.
    pub fn new(value: T) -> (pointer: Self)
        ensures
            pointer@ == value,
    {
        UniquePointer(Box::new(value))
    }

    /// The text `UniquePointer(..)` around the pointee's `Debug` rendering, or the
    /// error of a pointee whose `Debug` impl fails.
    fn render(&self) -> (text: Result<String, Error>) where T: Debug
        ensures
            text matches Ok(whole) ==> exists|pointee: Seq<char>|
                whole@ == labelled_text("UniquePointer"@, pointee),
    {
        labelled_rendering("UniquePointer", debug_text(&*self.0))
    }

    /// The text `UniquePointer(..)` around the pointee's `Debug` rendering; `None`
    /// if the pointee's `Debug` impl fails.
    pub fn format(&self) -> (text: Option<String>) where T: Debug
        ensures
            text matches Some(whole) ==> exists|pointee: Seq<char>|
                whole@ == labelled_text("UniquePointer"@, pointee),
    {
        match self.render() {
            Ok(whole) => Some(whole),
            Err(_) => None,
        }
    }
}

impl<T: Default> Default for UniquePointer<T> {
    /// A block that holds the default value of `T`.
    fn default() -> (pointer: Self)
        ensures
            T::default.ensures((), pointer@),
    {
        UniquePointer::new(T::default())
    }
}

impl<T: Clone> Clone for UniquePointer<T> {
    /// Allocates a second block and clones the pointee into it. The two
    /// handles share nothing afterwards.
    fn clone(&self) -> (copy: Self)
        ensures
            cloned::<T>(self@, copy@),
    {
        UniquePointer::new((*self.0).clone())
    }
}

impl<T> AsRef<T> for UniquePointer<T> {
    fn as_ref(&self) -> (target: &T)
        ensures
            *target == self@,
    {
        &*self.0
    }
}

impl<T> AsMut<T> for UniquePointer<T> {
    /// Write access to the pointee: what the borrow leaves behind is what the
    /// handle points to afterwards.
    fn as_mut(&mut self) -> (target: &mut T)
        ensures
            *target == old(self)@,
            final(self)@ == *final(target),
    {
        &mut *self.0
    }
}

impl<T> core::ops::Deref for UniquePointer<T> {
    type Target = T;

    fn deref(&self) -> (target: &T)
        ensures
            *target == self@,
    {
        &*self.0
    }
}

impl<T> core::ops::DerefMut for UniquePointer<T> {
    fn deref_mut(&mut self) -> (target: &mut T)
        ensures
            *target == old(self)@,
            final(self)@ == *final(target),
    {
        &mut *self.0
    }
}

impl<T: Debug> Debug for UniquePointer<T> {
    /// Writes the text of [`format`](UniquePointer::format), or hands on the error
    /// of a pointee whose `Debug` impl fails.
    fn fmt(&self, formatter: &mut Formatter<'_>) -> Result<(), Error> {
        match self.render() {
            Ok(whole) => formatter.write_str(whole.as_str()),
            Err(error) => Err(error),
        }
    }
}

} // verus!
