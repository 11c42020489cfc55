use pebble::boxed::Box;
use pebble::handle::Handle;
use pebble::memory::{calloc_request, malloc_request, placement};
use pebble::system::Call;

#[test]
fn malloc_of_nothing_makes_no_call() {
    assert_eq!(malloc_request(0), None);
}

#[test]
fn malloc_asks_for_the_size() {
    assert_eq!(malloc_request(16), Some(Call::Malloc { size: 16 }));
}

#[test]
fn calloc_of_empty_elements_makes_no_call() {
    assert_eq!(calloc_request(3, 0), None);
}

#[test]
fn calloc_asks_for_count_and_size() {
    assert_eq!(calloc_request(3, 4), Some(Call::Calloc { count: 3, size: 4 }));
    assert_eq!(calloc_request(0, 4), Some(Call::Calloc { count: 0, size: 4 }));
}

#[test]
fn placement_fails_on_null_reply() {
    assert!(placement::<u32>(0).is_err());
}

#[test]
fn placement_uses_the_granted_block() {
    let placed = placement::<u32>(0x2000).ok().unwrap();
    assert_eq!(placed.address(), 0x2000);
}

#[test]
fn placement_of_empty_value_is_dangling() {
    assert_eq!(placement::<()>(0).ok().unwrap().address(), std::mem::align_of::<()>());
    assert_eq!(placement::<[u64; 0]>(0).ok().unwrap().address(), std::mem::align_of::<u64>());
}

#[test]
fn handle_new_then_unwrap() {
    let handle: Handle<u8> = Handle::new(0x40);
    assert_eq!(handle.address(), 0x40);
    let again = handle.duplicate();
    assert_eq!(handle.unwrap(), 0x40);
    assert_eq!(again.unwrap(), 0x40);
}

#[test]
fn box_allocation_asks_for_the_size_of_the_value() {
    assert_eq!(Box::<u64>::allocation(), Some(Call::Malloc { size: 8 }));
    assert_eq!(Box::<()>::allocation(), None);
}

#[test]
fn box_placed_fails_on_exhausted_heap() {
    assert!(Box::<u64>::placed(0).is_err());
}

#[test]
fn box_placed_in_granted_block() {
    let boxed = Box::<u64>::placed(0x1000).ok().unwrap();
    assert_eq!(boxed.address(), 0x1000);
}

#[test]
fn box_of_empty_value_needs_no_block() {
    let boxed = Box::<()>::placed(0).ok().unwrap();
    assert_eq!(boxed.address(), 1);
    assert_eq!(Box::release(boxed), None);
}

#[test]
fn box_raw_round_trip_keeps_the_block() {
    let boxed = Box::<u32>::placed(0x3000).ok().unwrap();
    let raw = Box::into_raw(boxed);
    assert_eq!(raw.address(), 0x3000);
    let again = Box::from_raw(raw);
    assert_eq!(again.address(), 0x3000);
    let leaked = Box::leak(again);
    assert_eq!(leaked.unwrap(), 0x3000);
}

#[test]
fn box_release_frees_its_block() {
    let boxed = Box::<u32>::placed(0x3000).ok().unwrap();
    assert_eq!(Box::release(boxed), Some(Call::Free { block: 0x3000 }));
}

#[test]
fn box_downcast_keeps_the_block() {
    let boxed = Box::<u32>::placed(0x3000).ok().unwrap();
    let cast: Box<u8> = Box::downcast_unchecked(boxed);
    assert_eq!(cast.address(), 0x3000);
    assert_eq!(Box::release(cast), Some(Call::Free { block: 0x3000 }));
}
