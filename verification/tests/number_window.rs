use std::cell::RefCell;
use std::rc::Rc;

use pebble::memory::void;
use pebble::number_window::{NumberWindow, NumberWindowBuild, NumberWindowData, NumberWindowProgress};
use pebble::system::Call;
use pebble::window::WindowRef;

fn window_address(window: &NumberWindow<void>) -> usize {
    match window.window() {
        Call::NumberWindowGetWindow { number_window } => number_window,
        _ => panic!("expected a request for the window"),
    }
}

type Seen = Rc<RefCell<Vec<(&'static str, usize)>>>;

fn recording_data(
    seen: &Seen,
) -> NumberWindowData<
    impl FnMut(&NumberWindow<void>, &mut i32),
    impl FnMut(&NumberWindow<void>, &mut i32),
    impl FnMut(&NumberWindow<void>, &mut i32),
    i32,
> {
    let (s1, s2, s3) = (seen.clone(), seen.clone(), seen.clone());
    NumberWindowData {
        incremented: move |w: &NumberWindow<void>, c: &mut i32| {
            s1.borrow_mut().push(("incremented", window_address(w)));
            *c += 1;
        },
        decremented: move |w: &NumberWindow<void>, c: &mut i32| {
            s2.borrow_mut().push(("decremented", window_address(w)));
            *c -= 1;
        },
        selected: move |w: &NumberWindow<void>, c: &mut i32| {
            s3.borrow_mut().push(("selected", window_address(w)));
            *c *= 10;
        },
        context: 5,
    }
}

fn pending<N, T>(progress: NumberWindowProgress<N, T>) -> (NumberWindowBuild<N, T>, Call) {
    match progress {
        NumberWindowProgress::Pending { build, call } => (build, call),
        _ => panic!("expected a pending step"),
    }
}

#[test]
fn number_window_asks_for_a_block_then_creates() {
    let seen = Seen::default();
    let (build, call) = pending(NumberWindow::new(0x500, recording_data(&seen)));
    assert!(matches!(call, Call::Malloc { size } if size > 0));
    let (build, call) = pending(build.resume(0x2000));
    assert_eq!(call, Call::NumberWindowCreate { label: 0x500, context: 0x2000 });
    match build.resume(0x9000) {
        NumberWindowProgress::Created { window, data, block } => {
            assert_eq!(window.untyped().window(), Call::NumberWindowGetWindow { number_window: 0x9000 });
            assert_eq!(block.address(), 0x2000);
            assert_eq!(data.context, 5);
            assert_eq!(window.leak(), 0x9000);
        },
        _ => panic!("expected the number window to exist"),
    }
}

#[test]
fn exhausted_heap_gives_the_data_back() {
    let seen = Seen::default();
    let (build, _) = pending(NumberWindow::new(0x500, recording_data(&seen)));
    match build.resume(0) {
        NumberWindowProgress::Failed { data, release } => {
            assert_eq!(data.context, 5);
            assert_eq!(release, None);
        },
        _ => panic!("expected the construction to fail"),
    }
}

#[test]
fn failed_creation_gives_the_data_back() {
    let seen = Seen::default();
    let (build, _) = pending(NumberWindow::new(0x500, recording_data(&seen)));
    let (build, _) = pending(build.resume(0x2000));
    match build.resume(0) {
        NumberWindowProgress::Failed { mut data, release } => {
            assert_eq!(release, Some(Call::Free { block: 0x2000 }));
            let fake = NumberWindow::<i32>::from_raw(0x1234);
            data.incremented(&fake.untyped());
            assert_eq!(data.context, 6);
        },
        _ => panic!("expected the construction to fail"),
    }
    assert_eq!(*seen.borrow(), vec![("incremented", 0x1234)]);
}

#[test]
fn empty_handlers_need_no_block() {
    let data = NumberWindowData {
        incremented: |_: &NumberWindow<void>, _: &mut ()| {},
        decremented: |_: &NumberWindow<void>, _: &mut ()| {},
        selected: |_: &NumberWindow<void>, _: &mut ()| {},
        context: (),
    };
    let (build, call) = pending(NumberWindow::new(0x500, data));
    assert_eq!(call, Call::NumberWindowCreate { label: 0x500, context: 1 });
    assert!(matches!(build, NumberWindowBuild::Creating { .. }));
}

#[test]
fn system_reports_reach_the_handlers_with_the_window() {
    let seen = Seen::default();
    let mut data = recording_data(&seen);
    data.raw_incremented(0x9000);
    data.raw_incremented(0x9000);
    data.raw_selected(0x9000);
    data.raw_decremented(0x9000);
    assert_eq!(data.context, 69);
    assert_eq!(
        *seen.borrow(),
        vec![("incremented", 0x9000), ("incremented", 0x9000), ("selected", 0x9000), ("decremented", 0x9000)]
    );
}

#[test]
fn window_mut_asks_for_the_same_window() {
    let mut window = NumberWindow::<i32>::from_raw(0x9000);
    assert_eq!(window.window_mut(), Call::NumberWindowGetWindow { number_window: 0x9000 });
    let _reference = WindowRef::new(0x4000);
    window.abandon();
}

#[test]
fn failed_creation_of_empty_handlers_frees_nothing() {
    let data = NumberWindowData {
        incremented: |_: &NumberWindow<void>, _: &mut ()| {},
        decremented: |_: &NumberWindow<void>, _: &mut ()| {},
        selected: |_: &NumberWindow<void>, _: &mut ()| {},
        context: (),
    };
    let (build, _) = pending(NumberWindow::new(0x500, data));
    match build.resume(0) {
        NumberWindowProgress::Failed { release, .. } => assert_eq!(release, None),
        _ => panic!("expected the construction to fail"),
    }
}
