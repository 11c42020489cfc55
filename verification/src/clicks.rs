use vstd::prelude::*;

verus! {

/// The buttons of the watch that click handlers can subscribe to.
#[derive(Clone, Copy, Debug, PartialEq, Eq, Structural)]
pub enum ButtonId {
    _A,
}

/// The system's click recognizer that reports a click, known by its address.
#[derive(Clone, Copy, Debug, PartialEq, Eq, Structural)]
pub struct ClickRecognizerRef(usize);

} // verus!
