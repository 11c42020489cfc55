use vstd::prelude::*;
use core::marker::PhantomData;
use crate::handle::Handle;
use crate::system;

verus! {

/// A layer of the user interface, drawing data of type `T`.
pub struct Layer<T> {
    handle: Handle<system::Layer>,
    data: PhantomData<T>,
}

} // verus!
