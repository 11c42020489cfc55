use vstd::prelude::*;

verus! {

/// The system's window object; only ever reached through a handle.
pub struct Window {
    _opaque: (),
}

/// The system's layer object; only ever reached through a handle.
pub struct Layer {
    _opaque: (),
}

/// The system's number window object; only ever reached through a handle.
pub struct NumberWindow {
    _opaque: (),
}

/// A call into the watch's system software that the library asks the
/// platform layer to make. Objects are named by their addresses.
///
/// Calls with a reply: `Malloc`, `Calloc`, `WindowCreate`, `WindowGetUserData`,
/// `WindowStackPop`, `WindowStackGetTopWindow`, `NumberWindowCreate` and
/// `NumberWindowGetWindow` answer with an address (0 for none);
/// `WindowIsLoaded`, `WindowStackRemove` and `WindowStackContainsWindow`
/// answer with a flag.
#[derive(Clone, Copy, Debug, PartialEq, Eq, Structural)]
pub enum Call {
    Malloc { size: usize },
    Calloc { count: usize, size: usize },
    Free { block: usize },
    WindowCreate,
    WindowDestroy { window: usize },
    WindowGetUserData { window: usize },
    WindowSetUserData { window: usize, data: usize },
    WindowSetWindowHandlers { window: usize },
    WindowIsLoaded { window: usize },
    WindowStackPush { window: usize, animated: bool },
    WindowStackPop { animated: bool },
    WindowStackPopAll { animated: bool },
    WindowStackRemove { window: usize, animated: bool },
    WindowStackGetTopWindow,
    WindowStackContainsWindow { window: usize },
    NumberWindowCreate { label: usize, context: usize },
    NumberWindowGetWindow { number_window: usize },
}

} // verus!
