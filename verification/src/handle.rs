//! Typed handles: an index into a container, tagged with the kind of resource
//! that the container holds.

use std::marker::PhantomData;
use vstd::prelude::*;

verus! {

/// A strongly typed handle, passed around in place of a reference to a
/// resource. The id is an index into the container that issued the handle;
/// `usize::MAX` is reserved and marks a handle that refers to nothing.
///
/// The tag `T` keeps a handle of one container from being used on another:
/// the two are different types.
#[derive(Debug, Eq, PartialEq, Hash)]
pub struct Handle<T> {
    id: usize,
    phantom_data: PhantomData<T>,
}

impl<T> View for Handle<T> {
    type V = usize;

    /// A handle is its id.
    closed spec fn view(&self) -> usize {
        self.id
    }
}

impl<T> Handle<T> {
    /// The id that no valid handle carries.
    pub open spec fn invalid_id() -> usize {
        usize::MAX
    }

    /// Whether the handle refers to something.
    pub open spec fn valid(&self) -> bool {
        self@ != Self::invalid_id()
    }

    /// Create a new handle for the specified type.
    pub fn new(id: usize) -> (handle: Handle<T>)
        ensures
            handle@ == id,
    {
        Self { id: id, phantom_data: PhantomData }
    }

    /// Get the id of the handle.
    pub fn get_id(&self) -> (id: usize)
        ensures
            id == self@,
    {
        self.id
    }

    /// Get whether this handle has a valid id.
    pub fn is_valid(&self) -> (valid: bool)
        ensures
            valid == self.valid(),
    {
        self.id != usize::MAX
    }

    /// Invalidate the handle.
    pub fn invalidate(&mut self)
        ensures
            final(self)@ == Self::invalid_id(),
            !final(self).valid(),
    {
        self.id = usize::MAX;
    }
}

impl<T> Clone for Handle<T> {
    /// A copy refers to the same resource.
    fn clone(&self) -> (handle: Self)
        ensures
            handle@ == self@,
    {
        Self { id: self.id, phantom_data: PhantomData }
    }
}

impl<T> Copy for Handle<T> {

}

impl<T> Default for Handle<T> {
    /// The default handle is the invalid one.
    fn default() -> (handle: Self)
        ensures
            handle@ == Self::invalid_id(),
            !handle.valid(),
    {
        Self { id: usize::MAX, phantom_data: PhantomData }
    }
}

} // verus!
