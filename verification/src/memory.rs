use vstd::prelude::*;
use vstd::layout::{align_of, layout_for_type_is_valid, size_of};
use crate::handle::Handle;
use crate::system::Call;

verus! {

/// Untyped memory of the system's heap, the target of untyped handles.
#[allow(non_camel_case_types)]
pub struct void {
    _opaque: (),
}

/// The allocator call that reserves `size` bytes, as `malloc` makes it.
pub open spec fn malloc_call(size: usize) -> Option<Call> {
    if size == 0 {
        None
    } else {
        Some(Call::Malloc { size })
    }
}

/// The allocator call that reserves `count` elements of `size` bytes, as
/// `calloc` makes it.
pub open spec fn calloc_call(count: usize, size: usize) -> Option<Call> {
    if size == 0 {
        None
    } else {
        Some(Call::Calloc { count, size })
    }
}

/// The call `malloc` makes for a value of `size` bytes: none for an empty
/// value, which never touches the heap.
pub fn malloc_request(size: usize) -> (call: Option<Call>)
    ensures
        call == malloc_call(size),
        size == 0 ==> call is None,
        size != 0 ==> call == Some(Call::Malloc { size }),
{
    if size == 0 {
        None
    } else {
        Some(Call::Malloc { size })
    }
}

/// The call `calloc` makes for `count` elements of `size` bytes: none where
/// the elements are empty, which never touch the heap.
pub fn calloc_request(count: usize, size: usize) -> (call: Option<Call>)
    ensures
        call == calloc_call(count, size),
        size == 0 ==> call is None,
        size != 0 ==> call == Some(Call::Calloc { count, size }),
{
    if size == 0 {
        None
    } else {
        Some(Call::Calloc { count, size })
    }
}

/// Where memory for values of `T` ends up, given the allocator's reply to the
/// request for them (`malloc_request` or `calloc_request` with the size of
/// `T`): a value that takes no room is placed at the dangling address (the
/// alignment of `T`) without a reply; otherwise a null reply means that the
/// heap is exhausted.
pub fn placement<T>(reply: usize) -> (placed: Result<Handle<T>, ()>)
    ensures
        size_of::<T>() == 0 ==> (placed matches Ok(h) && h@ == align_of::<T>()),
        size_of::<T>() != 0 ==> (placed is Err <==> reply == 0),
        size_of::<T>() != 0 ==> (placed matches Ok(h) ==> h@ == reply),
{
    layout_for_type_is_valid::<T>();
    if core::mem::size_of::<T>() == 0 {
        Ok(Handle::new(core::mem::align_of::<T>()))
    } else if reply == 0 {
        Err(())
    } else {
        Ok(Handle::new(reply))
    }
}

/// An allocation asks the allocator for exactly the number of bytes that the
/// value takes, and a value that takes no room asks for nothing: whatever the
/// size, the call that `malloc` makes reserves that size, neither less nor
/// more.
pub proof fn malloc_asks_for_exactly_the_size(size: usize)
    ensures
        size == 0 ==> malloc_call(size) is None,
        size != 0 ==> malloc_call(size) == Some(Call::Malloc { size }),
{
}

/// An array allocation hands the allocator the element count and the
/// element size that it was given, unchanged, and asks for nothing where the
/// elements take no room.
pub proof fn calloc_asks_for_the_given_count_and_size(count: usize, size: usize)
    ensures
        size == 0 ==> calloc_call(count, size) is None,
        size != 0 ==> calloc_call(count, size) == Some(Call::Calloc { count, size }),
{
}

} // verus!
