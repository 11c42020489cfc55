use std::cell::RefCell;
use std::rc::Rc;

use pebble::system::Call;
use pebble::window::{Window, WindowBuild, WindowData, WindowHandlers, WindowProgress};

type Log = Rc<RefCell<Vec<String>>>;

fn logging_handlers(
    log: &Log,
) -> WindowHandlers<impl FnMut() -> u32, impl FnMut(&mut u32), impl FnMut(&mut u32), impl FnMut(u32), u32> {
    let (l1, l2, l3, l4) = (log.clone(), log.clone(), log.clone(), log.clone());
    WindowHandlers {
        load: move || {
            l1.borrow_mut().push("load".to_string());
            7
        },
        appear: move |data: &mut u32| {
            l2.borrow_mut().push(format!("appear {}", data));
            *data += 1;
        },
        disappear: move |data: &mut u32| {
            l3.borrow_mut().push(format!("disappear {}", data));
            *data += 10;
        },
        unload: move |data: u32| {
            l4.borrow_mut().push(format!("unload {}", data));
        },
    }
}

fn pending<H, T>(progress: WindowProgress<H, T>) -> (WindowBuild<H, T>, Call) {
    match progress {
        WindowProgress::Pending { build, call } => (build, call),
        _ => panic!("expected a pending step"),
    }
}

#[test]
fn new_window_first_asks_for_its_data_block() {
    let log = Log::default();
    let (build, call) = pending(Window::new(logging_handlers(&log)));
    assert!(matches!(call, Call::Malloc { size } if size > 0));
    match build {
        WindowBuild::Allocating { data } => assert!(data.user_data.is_none()),
        _ => panic!("expected the data to wait for its block"),
    }
    assert!(log.borrow().is_empty());
}

#[test]
fn exhausted_heap_gives_the_handlers_back() {
    let log = Log::default();
    let (build, _) = pending(Window::new(logging_handlers(&log)));
    match build.resume(0) {
        WindowProgress::Failed { handlers, release } => {
            assert_eq!(release, None);
            let mut handlers = handlers.0;
            assert_eq!((handlers.load)(), 7);
        },
        _ => panic!("expected the construction to fail"),
    }
    assert_eq!(*log.borrow(), vec!["load".to_string()]);
}

#[test]
fn failed_window_creation_gives_the_handlers_back() {
    let log = Log::default();
    let (build, _) = pending(Window::new(logging_handlers(&log)));
    let (build, call) = pending(build.resume(0x2000));
    assert_eq!(call, Call::WindowCreate);
    match build.resume(0) {
        WindowProgress::Failed { handlers, release } => {
            assert_eq!(release, Some(Call::Free { block: 0x2000 }));
            let mut handlers = handlers.0;
            (handlers.unload)(3);
        },
        _ => panic!("expected the construction to fail"),
    }
    assert_eq!(*log.borrow(), vec!["unload 3".to_string()]);
}

#[test]
fn created_window_registers_its_data_block() {
    let log = Log::default();
    let (build, _) = pending(Window::new(logging_handlers(&log)));
    let (build, _) = pending(build.resume(0x2000));
    match build.resume(0x7000) {
        WindowProgress::Created { window, data, block, register } => {
            assert_eq!(window.raw_window(), 0x7000);
            assert_eq!(block.address(), 0x2000);
            assert!(data.user_data.is_none());
            assert_eq!(
                register,
                (
                    Call::WindowSetUserData { window: 0x7000, data: 0x2000 },
                    Call::WindowSetWindowHandlers { window: 0x7000 }
                )
            );
        },
        _ => panic!("expected the window to exist"),
    }
}

#[test]
fn teardown_destroys_then_frees() {
    let log = Log::default();
    let (build, _) = pending(Window::new(logging_handlers(&log)));
    let (build, _) = pending(build.resume(0x2000));
    let window = match build.resume(0x7000) {
        WindowProgress::Created { window, .. } => window,
        _ => panic!("expected the window to exist"),
    };
    let (teardown, call) = window.destroy();
    assert_eq!(call, Call::WindowGetUserData { window: 0x7000 });
    assert_eq!(
        teardown.resume(0x2000),
        (Call::WindowDestroy { window: 0x7000 }, Some(Call::Free { block: 0x2000 }))
    );
}

#[test]
fn from_raw_refuses_null() {
    assert!(Window::<(), u8>::from_raw(0).is_err());
    assert_eq!(Window::<(), u8>::from_raw(0x10).ok().unwrap().raw_window(), 0x10);
}

#[test]
fn lifecycle_hands_unload_what_load_made() {
    let log = Log::default();
    let mut data = WindowData { user_data: None, window_handlers: logging_handlers(&log) };
    data.load();
    assert_eq!(data.user_data, Some(7));
    data.appear();
    assert_eq!(data.user_data, Some(8));
    data.disappear();
    assert_eq!(data.user_data, Some(18));
    data.unload();
    assert_eq!(data.user_data, None);
    assert_eq!(
        *log.borrow(),
        vec!["load".to_string(), "appear 7".to_string(), "disappear 8".to_string(), "unload 18".to_string()]
    );
}

#[test]
fn load_then_unload_without_showing() {
    let log = Log::default();
    let mut data = WindowData { user_data: None, window_handlers: logging_handlers(&log) };
    data.load();
    data.unload();
    assert_eq!(data.user_data, None);
    assert_eq!(*log.borrow(), vec!["load".to_string(), "unload 7".to_string()]);
}

#[test]
fn repeated_cycles_keep_running_the_same_handlers() {
    let log = Log::default();
    let mut data = WindowData { user_data: None, window_handlers: logging_handlers(&log) };
    data.load();
    data.appear();
    data.disappear();
    data.appear();
    data.disappear();
    data.unload();
    data.load();
    data.appear();
    data.unload();
    assert_eq!(data.user_data, None);
    assert_eq!(
        *log.borrow(),
        vec![
            "load".to_string(),
            "appear 7".to_string(),
            "disappear 8".to_string(),
            "appear 18".to_string(),
            "disappear 19".to_string(),
            "unload 29".to_string(),
            "load".to_string(),
            "appear 7".to_string(),
            "unload 8".to_string(),
        ]
    );
}
