use vstd::prelude::*;
use core::marker::PhantomData;
use std::rc::Rc;

verus! {

/// A non-owning handle on an object of type `T` that lives outside Rust,
/// known by its address, which is never null.
///
/// Handles may alias one another; dropping a handle does nothing to its target.
/// A handle is neither `Send` nor `Sync`: the objects it reaches belong to the
/// thread that runs the app.
pub struct Handle<T> {
    address: usize,
    pointee: PhantomData<(T, Rc<()>)>,
}

impl<T> View for Handle<T> {
    type V = usize;

    closed spec fn view(&self) -> usize {
        self.address
    }
}

impl<T> Handle<T> {
    #[verifier::type_invariant]
    spec fn non_null(self) -> bool {
        self.address != 0
    }

    /// A handle on the object at `exclusive_handle`.
    pub fn new(exclusive_handle: usize) -> (handle: Self)
        requires
            exclusive_handle != 0,
        ensures
            handle@ == exclusive_handle,
    {
        Handle { address: exclusive_handle, pointee: PhantomData }
    }

    /// The address of the target.
    pub fn address(&self) -> (address: usize)
        ensures
            address == self@,
            address != 0,
    {
        proof {
            use_type_invariant(self);
        }
        self.address
    }

    /// Gives up the handle and returns the address of its target.
    pub fn unwrap(self) -> (address: usize)
        ensures
            address == self@,
            address != 0,
    {
        proof {
            use_type_invariant(&self);
        }
        self.address
    }

    /// A second handle on the same target.
    pub fn duplicate(&self) -> (handle: Self)
        ensures
            handle@ == self@,
    {
        proof {
            use_type_invariant(self);
        }
        Handle { address: self.address, pointee: PhantomData }
    }
}

} // verus!
