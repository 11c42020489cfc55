use vstd::prelude::*;
use vstd::layout::{align_of, layout_for_type_is_valid, size_of};
use crate::handle::Handle;
use crate::memory::{malloc_call, malloc_request, placement};
use crate::system::Call;

verus! {

/// An owning handle on a value of type `T` placed in the system's heap.
///
/// Its constructor fails, instead of panicking, when the heap is exhausted;
/// dropping it (`release`) frees the block unless the value takes no room.
pub struct Box<T> {
    pointer: Handle<T>,
}

impl<T> View for Box<T> {
    type V = usize;

    /// The address of the block that holds the value.
    closed spec fn view(&self) -> usize {
        self.pointer@
    }
}

impl<T> Box<T> {
    /// The allocator call that a new box needs, if any.
    pub fn allocation() -> (call: Option<Call>)
        ensures
            call == malloc_call(size_of::<T>() as usize),
            size_of::<T>() == 0 ==> call is None,
            size_of::<T>() != 0 ==> call == Some(Call::Malloc { size: size_of::<T>() as usize }),
    {
        layout_for_type_is_valid::<T>();
        malloc_request(core::mem::size_of::<T>())
    }

    /// The box for a new value, given the allocator's reply to `allocation`:
    /// `Err` exactly where the value takes room and the heap is exhausted, in
    /// which case the value stays with the caller.
    pub fn placed(reply: usize) -> (placed: Result<Self, ()>)
        ensures
            size_of::<T>() == 0 ==> (placed matches Ok(b) && b@ == align_of::<T>()),
            size_of::<T>() != 0 ==> (placed is Err <==> reply == 0),
            size_of::<T>() != 0 ==> (placed matches Ok(b) ==> b@ == reply),
    {
        match placement::<T>(reply) {
            Ok(pointer) => Ok(Box { pointer }),
            Err(()) => Err(()),
        }
    }

    /// The address of the block.
    pub fn address(&self) -> (address: usize)
        ensures
            address == self@,
            address != 0,
    {
        self.pointer.address()
    }

    /// Gives up ownership of the block without freeing it.
    pub fn leak(boxed: Self) -> (pointer: Handle<T>)
        ensures
            pointer@ == boxed@,
    {
        boxed.pointer
    }

    /// Takes ownership of the block at `raw` again.
    pub fn from_raw(raw: Handle<T>) -> (boxed: Self)
        ensures
            boxed@ == raw@,
    {
        Box { pointer: raw }
    }

    /// Gives up ownership of the block and returns a handle on it.
    pub fn into_raw(boxed: Self) -> (raw: Handle<T>)
        ensures
            raw@ == boxed@,
    {
        Box::leak(boxed)
    }

    /// The same block, seen as holding a value of type `U`.
    pub fn downcast_unchecked<U>(boxed: Self) -> (cast: Box<U>)
        ensures
            cast@ == boxed@,
    {
        let raw = Box::into_raw(boxed);
        Box::from_raw(Handle::new(raw.unwrap()))
    }

    /// What dropping the box does to the heap: it frees the block, unless the
    /// value takes no room and so was never allocated.
    pub fn release(boxed: Self) -> (call: Option<Call>)
        ensures
            call == (if size_of::<T>() == 0 {
                None
            } else {
                Some(Call::Free { block: boxed@ })
            }),
    {
        let block = boxed.pointer.unwrap();
        if core::mem::size_of::<T>() == 0 {
            None
        } else {
            Some(Call::Free { block })
        }
    }
}

} // verus!

