use pebble::clicks::ButtonId;
use pebble::graphics::{GPoint, GRect, GSize};

#[test]
fn rectangles_compare_by_origin_and_size() {
    let a = GRect { origin: GPoint { x: 1, y: 2 }, size: GSize { w: 30, h: 40 } };
    let b = a;
    assert_eq!(a, b);
    let c = GRect { origin: GPoint { x: 1, y: 3 }, size: GSize { w: 30, h: 40 } };
    assert_ne!(a, c);
    assert_eq!(ButtonId::_A, ButtonId::_A);
}
