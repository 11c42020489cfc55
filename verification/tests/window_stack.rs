use pebble::system::Call;
use pebble::window::{Window, WindowHandlers, WindowProgress};
use pebble::window_stack;

fn created_window() -> Window<WindowHandlers<fn() -> u8, fn(&mut u8), fn(&mut u8), fn(u8), u8>, u8> {
    fn load() -> u8 {
        1
    }
    fn see(_: &mut u8) {}
    fn unload(_: u8) {}
    let handlers = WindowHandlers {
        load: load as fn() -> u8,
        appear: see as fn(&mut u8),
        disappear: see as fn(&mut u8),
        unload: unload as fn(u8),
    };
    let build = match Window::new(handlers) {
        WindowProgress::Pending { build, .. } => build,
        _ => panic!("construction starts pending"),
    };
    let build = match build.resume(0x2000) {
        WindowProgress::Pending { build, .. } => build,
        _ => panic!("allocation granted"),
    };
    match build.resume(0x7000) {
        WindowProgress::Created { window, .. } => window,
        _ => panic!("window created"),
    }
}

#[test]
fn push_names_the_window() {
    let window = created_window();
    assert_eq!(window_stack::push(&window, true), Call::WindowStackPush { window: 0x7000, animated: true });
}

#[test]
fn remove_names_the_window() {
    let window = created_window();
    assert_eq!(
        window_stack::remove(&window, false),
        Call::WindowStackRemove { window: 0x7000, animated: false }
    );
}

#[test]
fn contains_window_names_the_window() {
    let window = created_window();
    assert_eq!(
        window_stack::contains_window(&window),
        Call::WindowStackContainsWindow { window: 0x7000 }
    );
}

#[test]
fn pop_and_pop_all() {
    assert_eq!(window_stack::pop(true), Call::WindowStackPop { animated: true });
    assert_eq!(window_stack::pop_all(false), Call::WindowStackPopAll { animated: false });
}

#[test]
fn popped_reads_a_null_reply_as_nothing_popped() {
    assert!(!window_stack::popped(0));
    assert!(window_stack::popped(0x7000));
}

#[test]
fn empty_stack_has_no_top_window() {
    assert_eq!(window_stack::is_empty(), Call::WindowStackGetTopWindow);
    assert!(window_stack::is_empty_reply(0));
    assert!(!window_stack::is_empty_reply(0x7000));
}

#[test]
fn show_pushes_and_hide_removes() {
    let window = created_window();
    assert_eq!(window.show(true), Call::WindowStackPush { window: 0x7000, animated: true });
    assert_eq!(window.hide_window(true), Call::WindowStackRemove { window: 0x7000, animated: true });
    assert_eq!(window.is_loaded(), Call::WindowIsLoaded { window: 0x7000 });
}
