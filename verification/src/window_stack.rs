use vstd::prelude::*;
use crate::system::Call;
use crate::window::Window;

verus! {

/// Pushes `window` onto the window stack.
pub fn push<H, T>(window: &Window<H, T>, animated: bool) -> (call: Call)
    ensures
        call == (Call::WindowStackPush { window: window@, animated }),
{
    Call::WindowStackPush { window: window.raw_window(), animated }
}

/// Pops the topmost window; `popped` reads the reply.
pub fn pop(animated: bool) -> (call: Call)
    ensures
        call == (Call::WindowStackPop { animated }),
{
    Call::WindowStackPop { animated }
}

/// Whether a window was popped, from the reply to `pop`: the popped window,
/// or null where the stack had none.
pub fn popped(reply: usize) -> (popped: bool)
    ensures
        popped == (reply != 0),
{
    reply != 0
}

/// Pops every window.
pub fn pop_all(animated: bool) -> (call: Call)
    ensures
        call == (Call::WindowStackPopAll { animated }),
{
    Call::WindowStackPopAll { animated }
}

/// Removes `window` from the window stack; the reply says whether it was.
pub fn remove<H, T>(window: &Window<H, T>, animated: bool) -> (call: Call)
    ensures
        call == (Call::WindowStackRemove { window: window@, animated }),
{
    Call::WindowStackRemove { window: window.raw_window(), animated }
}

/// Asks for the topmost window; `is_empty_reply` reads the reply.
pub fn is_empty() -> (call: Call)
    ensures
        call == Call::WindowStackGetTopWindow,
{
    Call::WindowStackGetTopWindow
}

/// Whether the window stack is empty, from the reply to `is_empty`: the
/// topmost window, or null where there is none.
pub fn is_empty_reply(top_window: usize) -> (empty: bool)
    ensures
        empty == (top_window == 0),
{
    top_window == 0
}

/// Asks whether `window` is on the window stack; the reply is the answer.
pub fn contains_window<H, T>(window: &Window<H, T>) -> (call: Call)
    ensures
        call == (Call::WindowStackContainsWindow { window: window@ }),
{
    Call::WindowStackContainsWindow { window: window.raw_window() }
}

} // verus!
