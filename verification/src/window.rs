use vstd::prelude::*;
use vstd::layout::{align_of, layout_for_type_is_valid, size_of};
use core::marker::PhantomData;
use crate::boxed::Box;
use crate::handle::Handle;
use crate::memory::malloc_call;
use crate::system::{self, Call};
use crate::window_stack;

verus! {

/// The four handlers of a window's life: `load` makes the window's data when
/// the window is loaded, `appear` and `disappear` see it while the window is
/// shown and hidden, and `unload` takes it back when the window is unloaded.
#[verifier::reject_recursive_types(T)]
pub struct WindowHandlers<L: FnMut() -> T, A: FnMut(&mut T), D: FnMut(&mut T), U: FnMut(T), T> {
    pub load: L,
    pub appear: A,
    pub disappear: D,
    pub unload: U,
}

impl<L: FnMut() -> T, A: FnMut(&mut T), D: FnMut(&mut T), U: FnMut(T), T> WindowHandlers<
    L,
    A,
    D,
    U,
    T,
> {
    /// Runs the `load` handler.
    pub fn load(&mut self) -> (data: T)
        requires
            call_requires(old(self).load, ()),
        ensures
            call_ensures(old(self).load, (), data),
            *final(self) == *old(self),
    {
        (self.load)()
    }

    /// Runs the `appear` handler on the window's data.
    pub fn appear(&mut self, data: &mut T)
        requires
            forall|d: &mut T| *d == *old(data) ==> call_requires(old(self).appear, (d,)),
        ensures
            exists|d: &mut T|
                #![auto]
                *d == *old(data) && *final(d) == *final(data) && call_ensures(
                    old(self).appear,
                    (d,),
                    (),
                ),
            *final(self) == *old(self),
    {
        (self.appear)(data)
    }

    /// Runs the `disappear` handler on the window's data.
    pub fn disappear(&mut self, data: &mut T)
        requires
            forall|d: &mut T| *d == *old(data) ==> call_requires(old(self).disappear, (d,)),
        ensures
            exists|d: &mut T|
                #![auto]
                *d == *old(data) && *final(d) == *final(data) && call_ensures(
                    old(self).disappear,
                    (d,),
                    (),
                ),
            *final(self) == *old(self),
    {
        (self.disappear)(data)
    }

    /// Runs the `unload` handler, which takes the window's data.
    pub fn unload(&mut self, data: T)
        requires
            call_requires(old(self).unload, (data,)),
        ensures
            call_ensures(old(self).unload, (data,), ()),
            *final(self) == *old(self),
    {
        (self.unload)(data)
    }
}

/// What a window keeps in the system's heap: its handlers, and the data that
/// `load` made while the window is loaded.
#[verifier::reject_recursive_types(T)]
pub struct WindowData<H, T> {
    pub user_data: Option<T>,
    pub window_handlers: H,
}

/// The events of a window's life that the system reports.
#[derive(Clone, Copy, Debug, PartialEq, Eq, Structural)]
pub enum WindowEvent {
    Load,
    Appear,
    Disappear,
    Unload,
}

impl<L: FnMut() -> T, A: FnMut(&mut T), D: FnMut(&mut T), U: FnMut(T), T> WindowData<
    WindowHandlers<L, A, D, U, T>,
    T,
> {
    /// `after` is what loading the window makes of `self`: the `load`
    /// handler ran once and its result is the window's data.
    pub open spec fn loads(self, after: Self) -> bool {
        &&& after.window_handlers == self.window_handlers
        &&& after.user_data matches Some(data) && call_ensures(
            self.window_handlers.load,
            (),
            data,
        )
    }

    /// `after` is what the window appearing makes of `self`: the window keeps
    /// its handlers and its data, on which the `appear` handler ran once (the
    /// data that the handler left is what `appear` states).
    pub open spec fn appears(self, after: Self) -> bool {
        &&& after.window_handlers == self.window_handlers
        &&& self.user_data is Some
        &&& after.user_data is Some
        &&& exists|d: &mut T|
            #![auto]
            *d == self.user_data->0 && call_ensures(self.window_handlers.appear, (d,), ())
    }

    /// `after` is what the window disappearing makes of `self`: the window
    /// keeps its handlers and its data, on which the `disappear` handler ran
    /// once (the data that the handler left is what `disappear` states).
    pub open spec fn disappears(self, after: Self) -> bool {
        &&& after.window_handlers == self.window_handlers
        &&& self.user_data is Some
        &&& after.user_data is Some
        &&& exists|d: &mut T|
            #![auto]
            *d == self.user_data->0 && call_ensures(self.window_handlers.disappear, (d,), ())
    }

    /// `after` is what unloading the window makes of `self`: the `unload`
    /// handler ran once and took the window's data, which leaves the window.
    pub open spec fn unloads(self, after: Self) -> bool {
        &&& after.window_handlers == self.window_handlers
        &&& self.user_data is Some
        &&& after.user_data is None
        &&& call_ensures(self.window_handlers.unload, (self.user_data->0,), ())
    }

    /// `after` is what `event` makes of `self`.
    pub open spec fn steps(self, event: WindowEvent, after: Self) -> bool {
        match event {
            WindowEvent::Load => self.loads(after),
            WindowEvent::Appear => self.appears(after),
            WindowEvent::Disappear => self.disappears(after),
            WindowEvent::Unload => self.unloads(after),
        }
    }

    /// `states` is what the events `events` make of `states[0]`, one by one.
    pub open spec fn runs_through(states: Seq<Self>, events: Seq<WindowEvent>) -> bool {
        &&& states.len() == events.len() + 1
        &&& forall|i: int|
            #![trigger events[i]]
            0 <= i < events.len() ==> states[i].steps(events[i], states[i + 1])
    }

    /// The system loads the window: the `load` handler makes its data.
    pub fn load(&mut self)
        requires
            call_requires(old(self).window_handlers.load, ()),
        ensures
            old(self).loads(*final(self)),
    {
        let data = self.window_handlers.load();
        self.user_data = Some(data);
    }

    /// The window appears: the `appear` handler sees its data, which stays.
    pub fn appear(&mut self)
        requires
            old(self).user_data is Some,
            forall|d: &mut T|
                *d == old(self).user_data->0 ==> call_requires(
                    old(self).window_handlers.appear,
                    (d,),
                ),
        ensures
            old(self).appears(*final(self)),
            exists|d: &mut T|
                #![auto]
                *d == old(self).user_data->0 && *final(d) == final(self).user_data->0
                    && call_ensures(old(self).window_handlers.appear, (d,), ()),
    {
        match &mut self.user_data {
            Some(data) => self.window_handlers.appear(data),
            None => {},
        }
    }

    /// The window disappears: the `disappear` handler sees its data, which
    /// stays.
    pub fn disappear(&mut self)
        requires
            old(self).user_data is Some,
            forall|d: &mut T|
                *d == old(self).user_data->0 ==> call_requires(
                    old(self).window_handlers.disappear,
                    (d,),
                ),
        ensures
            old(self).disappears(*final(self)),
            exists|d: &mut T|
                #![auto]
                *d == old(self).user_data->0 && *final(d) == final(self).user_data->0
                    && call_ensures(old(self).window_handlers.disappear, (d,), ()),
    {
        match &mut self.user_data {
            Some(data) => self.window_handlers.disappear(data),
            None => {},
        }
    }

    /// The system unloads the window: the `unload` handler takes its data,
    /// which leaves the window.
    pub fn unload(&mut self)
        requires
            old(self).user_data is Some,
            call_requires(old(self).window_handlers.unload, (old(self).user_data->0,)),
        ensures
            old(self).unloads(*final(self)),
    {
        let data = self.user_data.take();
        match data {
            Some(data) => self.window_handlers.unload(data),
            None => {},
        }
    }
}

/// A window of the system, whose data (of type `WindowData<H, T>`) lives in
/// a block of the system's heap that the window owns.
pub struct Window<H, T> {
    raw: Handle<system::Window>,
    data: PhantomData<(H, T)>,
}

impl<H, T> View for Window<H, T> {
    type V = usize;

    /// The address of the system's window.
    closed spec fn view(&self) -> usize {
        self.raw@
    }
}

/// A window under construction, waiting for the reply to a call.
#[verifier::reject_recursive_types(T)]
pub enum WindowBuild<H, T> {
    /// The window's data waits for a block of the heap.
    Allocating { data: WindowData<H, T> },
    /// The data has its block; the system's window waits to be created.
    Creating { data: WindowData<H, T>, block: Box<WindowData<H, T>> },
}

/// Where the construction of a window stands.
#[verifier::reject_recursive_types(T)]
pub enum WindowProgress<H, T> {
    /// Make `call` and hand its reply to `WindowBuild::resume`.
    Pending { build: WindowBuild<H, T>, call: Call },
    /// The window could not be made; the handlers come back, and the block
    /// that was granted for the data, if any, is to be freed with `release`.
    Failed { handlers: (H,), release: Option<Call> },
    /// The window exists: write `data` into `block`, then make both calls of
    /// `register`, in order.
    Created {
        window: Window<H, T>,
        data: WindowData<H, T>,
        block: Box<WindowData<H, T>>,
        register: (Call, Call),
    },
}

impl<H, T> WindowBuild<H, T> {
    /// The window's data, with the handlers that it is being made with.
    pub open spec fn data(self) -> WindowData<H, T> {
        match self {
            WindowBuild::Allocating { data } => data,
            WindowBuild::Creating { data, .. } => data,
        }
    }

    /// How a construction continues from `self` once `reply` came back.
    pub open spec fn resumes_to(self, reply: usize, progress: WindowProgress<H, T>) -> bool {
        match self {
            WindowBuild::Allocating { data } => if size_of::<WindowData<H, T>>() != 0 && reply
                == 0 {
                progress == (WindowProgress::<H, T>::Failed {
                    handlers: (data.window_handlers,),
                    release: None,
                })
            } else {
                &&& progress matches WindowProgress::Pending { build, call }
                &&& call == Call::WindowCreate
                &&& build matches WindowBuild::Creating { data: d, block }
                &&& d == data
                &&& block@ == (if size_of::<WindowData<H, T>>() == 0 {
                    align_of::<WindowData<H, T>>() as usize
                } else {
                    reply
                })
            },
            WindowBuild::Creating { data, block } => if reply == 0 {
                progress == (WindowProgress::<H, T>::Failed {
                    handlers: (data.window_handlers,),
                    release: if size_of::<WindowData<H, T>>() == 0 {
                        None
                    } else {
                        Some(Call::Free { block: block@ })
                    },
                })
            } else {
                &&& progress matches WindowProgress::Created {
                    window,
                    data: d,
                    block: b,
                    register,
                }
                &&& window@ == reply
                &&& d == data
                &&& b == block
                &&& register == (
                    Call::WindowSetUserData { window: reply, data: block@ },
                    Call::WindowSetWindowHandlers { window: reply },
                )
            },
        }
    }

    /// Continues the construction with the reply to the pending call: a
    /// failed allocation or a failed window creation ends it and gives the
    /// handlers back; after a failed window creation, the data's block is to
    /// be freed.
    pub fn resume(self, reply: usize) -> (progress: WindowProgress<H, T>)
        ensures
            self.resumes_to(reply, progress),
    {
        layout_for_type_is_valid::<WindowData<H, T>>();
        match self {
            WindowBuild::Allocating { data } => match Box::<WindowData<H, T>>::placed(reply) {
                Ok(block) => WindowProgress::Pending {
                    build: WindowBuild::Creating { data, block },
                    call: Call::WindowCreate,
                },
                Err(()) => WindowProgress::Failed {
                    handlers: (data.window_handlers,),
                    release: None,
                },
            },
            WindowBuild::Creating { data, block } => {
                if reply == 0 {
                    WindowProgress::Failed {
                        handlers: (data.window_handlers,),
                        release: Box::release(block),
                    }
                } else {
                    let raw = Handle::new(reply);
                    let register = (
                        Call::WindowSetUserData { window: reply, data: block.address() },
                        Call::WindowSetWindowHandlers { window: reply },
                    );
                    WindowProgress::Created {
                        window: Window { raw, data: PhantomData },
                        data,
                        block,
                        register,
                    }
                }
            },
        }
    }
}

/// The first step of building a window with `handlers`.
pub open spec fn starts_window<H, T>(handlers: H, progress: WindowProgress<H, T>) -> bool {
    let data = WindowData::<H, T> { user_data: None, window_handlers: handlers };
    match malloc_call(size_of::<WindowData<H, T>>() as usize) {
        Some(call) => progress == (WindowProgress::<H, T>::Pending {
            build: WindowBuild::Allocating { data },
            call,
        }),
        None => {
            &&& progress matches WindowProgress::Pending { build, call }
            &&& call == Call::WindowCreate
            &&& build matches WindowBuild::Creating { data: d, block }
            &&& d == data
            &&& block@ == align_of::<WindowData<H, T>>() as usize
        },
    }
}

/// A window being torn down, waiting for the address of its data.
pub struct WindowTeardown<H, T> {
    raw: Handle<system::Window>,
    data: PhantomData<(H, T)>,
}

impl<H, T> View for WindowTeardown<H, T> {
    type V = usize;

    closed spec fn view(&self) -> usize {
        self.raw@
    }
}

impl<H, T> WindowTeardown<H, T> {
    /// The calls that finish the teardown, given the reply to
    /// `WindowGetUserData` (the data block, which the window registered):
    /// first the system's window is destroyed, then the data block is freed
    /// unless the data takes no room.
    pub fn resume(self, user_data: usize) -> (calls: (Call, Option<Call>))
        requires
            user_data != 0,
        ensures
            calls.0 == (Call::WindowDestroy { window: self@ }),
            calls.1 == (if size_of::<WindowData<H, T>>() == 0 {
                None
            } else {
                Some(Call::Free { block: user_data })
            }),
    {
        let window = self.raw.unwrap();
        let block = Box::<WindowData<H, T>>::from_raw(Handle::new(user_data));
        (Call::WindowDestroy { window }, Box::release(block))
    }
}

impl<L: FnMut() -> T, A: FnMut(&mut T), D: FnMut(&mut T), U: FnMut(T), T> Window<
    WindowHandlers<L, A, D, U, T>,
    T,
> {
    /// Starts building a window with `window_handlers`: its data, not loaded
    /// yet, first needs a block of the heap (unless it takes no room), then
    /// the system's window is created.
    ///
    /// The handlers are kept inline in the data, so a window asks the
    /// allocator for one block, of the size of `WindowData<H, T>`, where
    /// handlers kept in a block of their own (behind a trait object) would
    /// need two, each of which could fail.
    pub fn new(
        window_handlers: WindowHandlers<L, A, D, U, T>,
    ) -> (progress: WindowProgress<WindowHandlers<L, A, D, U, T>, T>)
        ensures
            starts_window(window_handlers, progress),
    {
        layout_for_type_is_valid::<WindowData<WindowHandlers<L, A, D, U, T>, T>>();
        let data = WindowData { user_data: None, window_handlers };
        match Box::<WindowData<WindowHandlers<L, A, D, U, T>, T>>::allocation() {
            Some(call) => WindowProgress::Pending { build: WindowBuild::Allocating { data }, call },
            None => match Box::<WindowData<WindowHandlers<L, A, D, U, T>, T>>::placed(0) {
                Ok(block) => WindowProgress::Pending {
                    build: WindowBuild::Creating { data, block },
                    call: Call::WindowCreate,
                },
                Err(()) => WindowProgress::Failed {
                    handlers: (data.window_handlers,),
                    release: None,
                },
            },
        }
    }
}

impl<H, T> Window<H, T> {
    /// The window whose system window is at `raw_window`; `Err` for a null
    /// address.
    pub fn from_raw(raw_window: usize) -> (window: Result<Self, ()>)
        ensures
            window is Err <==> raw_window == 0,
            window matches Ok(w) ==> w@ == raw_window,
    {
        if raw_window == 0 {
            Err(())
        } else {
            Ok(Window { raw: Handle::new(raw_window), data: PhantomData })
        }
    }

    /// The address of the system's window.
    pub fn raw_window(&self) -> (raw_window: usize)
        ensures
            raw_window == self@,
            raw_window != 0,
    {
        self.raw.address()
    }

    /// Asks whether the window is loaded; the reply is the answer.
    pub fn is_loaded(&self) -> (call: Call)
        ensures
            call == (Call::WindowIsLoaded { window: self@ }),
    {
        Call::WindowIsLoaded { window: self.raw.address() }
    }

    /// Shows the window: pushes it onto the window stack.
    pub fn show(&self, animated: bool) -> (call: Call)
        ensures
            call == (Call::WindowStackPush { window: self@, animated }),
    {
        window_stack::push(self, animated)
    }

    /// Hides the window: removes it from the window stack; the reply says
    /// whether it was removed.
    pub fn hide_window(&self, animated: bool) -> (call: Call)
        ensures
            call == (Call::WindowStackRemove { window: self@, animated }),
    {
        window_stack::remove(self, animated)
    }

    /// Starts dropping the window: its data block is asked for first, since
    /// destroying the system's window comes next.
    pub fn destroy(self) -> (teardown: (WindowTeardown<H, T>, Call))
        ensures
            teardown.0@ == self@,
            teardown.1 == (Call::WindowGetUserData { window: self@ }),
    {
        let window = self.raw.address();
        (WindowTeardown { raw: self.raw, data: PhantomData }, Call::WindowGetUserData { window })
    }
}

} // verus!

verus! {

/// A borrowed system window, reached through another object.
pub struct WindowRef {
    raw: Handle<system::Window>,
}

/// A mutably borrowed system window, reached through another object.
pub struct WindowRefMut {
    raw: Handle<system::Window>,
}

impl View for WindowRef {
    type V = usize;

    closed spec fn view(&self) -> usize {
        self.raw@
    }
}

impl View for WindowRefMut {
    type V = usize;

    closed spec fn view(&self) -> usize {
        self.raw@
    }
}

impl WindowRef {
    /// The system window at `raw_window`.
    pub fn new(raw_window: usize) -> (window: Self)
        requires
            raw_window != 0,
        ensures
            window@ == raw_window,
    {
        WindowRef { raw: Handle::new(raw_window) }
    }
}

impl WindowRefMut {
    /// The system window at `raw_window`.
    pub fn new(raw_window: usize) -> (window: Self)
        requires
            raw_window != 0,
        ensures
            window@ == raw_window,
    {
        WindowRefMut { raw: Handle::new(raw_window) }
    }
}

} // verus!

verus! {

/// Building a window with `handlers`, from its first call to its end, for any
/// replies `first_reply` and `second_reply` of the system:
/// - where the data takes room, the first call asks the allocator for a
///   block of exactly the data's size; a null reply ends the construction
///   with the handlers back and nothing to free; a granted block is followed
///   by the creation of the system's window; a null window ends it with the
///   handlers back and the granted block to be freed; a created window is
///   the one the system made, holds the data unloaded in the granted block,
///   and registers that block and its handlers with that window;
/// - where the data takes no room, no block is asked for: the data goes to
///   the dangling address, and the first call creates the system's window.
pub proof fn window_construction<H, T>(
    handlers: H,
    first: WindowProgress<H, T>,
    first_reply: usize,
    second: WindowProgress<H, T>,
    second_reply: usize,
    third: WindowProgress<H, T>,
)
    requires
        size_of::<WindowData<H, T>>() <= usize::MAX,
        align_of::<WindowData<H, T>>() <= usize::MAX,
        starts_window(handlers, first),
        first matches WindowProgress::Pending { build, .. } ==> build.resumes_to(
            first_reply,
            second,
        ),
        second matches WindowProgress::Pending { build, .. } ==> build.resumes_to(
            second_reply,
            third,
        ),
    ensures
        size_of::<WindowData<H, T>>() != 0 ==> first == (WindowProgress::<H, T>::Pending {
            build: WindowBuild::Allocating {
                data: WindowData { user_data: None, window_handlers: handlers },
            },
            call: Call::Malloc { size: size_of::<WindowData<H, T>>() as usize },
        }),
        size_of::<WindowData<H, T>>() != 0 && first_reply == 0 ==> second == (WindowProgress::<
            H,
            T,
        >::Failed { handlers: (handlers,), release: None }),
        size_of::<WindowData<H, T>>() != 0 && first_reply != 0 ==> {
            &&& second matches WindowProgress::Pending { build, call }
            &&& call == Call::WindowCreate
            &&& build matches WindowBuild::Creating { data, block }
            &&& data == (WindowData::<H, T> { user_data: None, window_handlers: handlers })
            &&& block@ == first_reply
        },
        size_of::<WindowData<H, T>>() != 0 && first_reply != 0 && second_reply == 0 ==> third
            == (WindowProgress::<H, T>::Failed {
            handlers: (handlers,),
            release: Some(Call::Free { block: first_reply }),
        }),
        size_of::<WindowData<H, T>>() != 0 && first_reply != 0 && second_reply != 0 ==> {
            &&& third matches WindowProgress::Created { window, data, block, register }
            &&& window@ == second_reply
            &&& data == (WindowData::<H, T> { user_data: None, window_handlers: handlers })
            &&& block@ == first_reply
            &&& register == (
                Call::WindowSetUserData { window: second_reply, data: first_reply },
                Call::WindowSetWindowHandlers { window: second_reply },
            )
        },
        size_of::<WindowData<H, T>>() == 0 ==> {
            &&& first matches WindowProgress::Pending { build, call }
            &&& call == Call::WindowCreate
            &&& build matches WindowBuild::Creating { data, block }
            &&& data == (WindowData::<H, T> { user_data: None, window_handlers: handlers })
            &&& block@ == align_of::<WindowData<H, T>>() as usize
        },
        size_of::<WindowData<H, T>>() == 0 && first_reply == 0 ==> second == (WindowProgress::<
            H,
            T,
        >::Failed { handlers: (handlers,), release: None }),
        size_of::<WindowData<H, T>>() == 0 && first_reply != 0 ==> {
            &&& second matches WindowProgress::Created { window, data, block, register }
            &&& window@ == first_reply
            &&& data == (WindowData::<H, T> { user_data: None, window_handlers: handlers })
            &&& block@ == align_of::<WindowData<H, T>>() as usize
            &&& register == (
                Call::WindowSetUserData {
                    window: first_reply,
                    data: align_of::<WindowData<H, T>>() as usize,
                },
                Call::WindowSetWindowHandlers { window: first_reply },
            )
        },
{
}

/// A window's construction starts with its data unloaded and holding the
/// handlers it was given.
pub proof fn window_starts_unloaded<H, T>(handlers: H, progress: WindowProgress<H, T>)
    requires
        starts_window(handlers, progress),
    ensures
        progress matches WindowProgress::Pending { build, .. } && build.data() == (WindowData::<
            H,
            T,
        > { user_data: None, window_handlers: handlers }),
{
}

/// Every step of a window's construction keeps the data that the
/// construction started with: a pending step carries it on, a failed one
/// gives its handlers back, and a finished one hands it over for its block.
pub proof fn window_construction_keeps_data<H, T>(
    build: WindowBuild<H, T>,
    reply: usize,
    progress: WindowProgress<H, T>,
)
    requires
        build.resumes_to(reply, progress),
    ensures
        progress matches WindowProgress::Pending { build: next, .. } ==> next.data()
            == build.data(),
        progress matches WindowProgress::Failed { handlers, .. } ==> handlers.0
            == build.data().window_handlers,
        progress matches WindowProgress::Created { data, .. } ==> data == build.data(),
{
}

/// Once the system's window is being created, the next reply ends the
/// construction, one way or the other.
pub proof fn window_construction_ends<H, T>(
    build: WindowBuild<H, T>,
    reply: usize,
    progress: WindowProgress<H, T>,
)
    requires
        build is Creating,
        build.resumes_to(reply, progress),
    ensures
        !(progress is Pending),
        progress is Failed <==> reply == 0,
{
}

/// A construction that fails before any block was granted frees nothing;
/// one that fails once the data has its block asks to free that very block
/// (unless the data takes no room), so that no failure leaves a block behind.
pub proof fn failed_window_construction_frees_its_block<H, T>(
    build: WindowBuild<H, T>,
    reply: usize,
    progress: WindowProgress<H, T>,
    creation_reply: usize,
    outcome: WindowProgress<H, T>,
)
    requires
        build is Allocating,
        build.resumes_to(reply, progress),
        progress matches WindowProgress::Pending { build: next, .. } ==> next.resumes_to(
            creation_reply,
            outcome,
        ),
    ensures
        progress matches WindowProgress::Failed { release, .. } ==> release is None,
        progress is Pending ==> (outcome matches WindowProgress::Failed { release, .. } ==> release
            == (if size_of::<WindowData<H, T>>() == 0 {
            None
        } else {
            Some(Call::Free { block: reply })
        })),
{
}

/// A finished window registers the block of its data with the system, and
/// tearing the window down, given that block back, destroys the very window
/// and then frees that block (unless the data takes no room).
pub proof fn window_teardown_frees_its_block<H, T>(
    build: WindowBuild<H, T>,
    reply: usize,
    progress: WindowProgress<H, T>,
    registered: usize,
    teardown: (Call, Option<Call>),
)
    requires
        build.resumes_to(reply, progress),
        progress matches WindowProgress::Created { register, .. } && register.0 matches Call::WindowSetUserData {
            data,
            ..
        } && data == registered,
        progress matches WindowProgress::Created { window, .. } && teardown.0 == (
        Call::WindowDestroy { window: window@ }),
        teardown.1 == (if size_of::<WindowData<H, T>>() == 0 {
            None
        } else {
            Some(Call::Free { block: registered })
        }),
    ensures
        progress matches WindowProgress::Created { window, block, .. } && teardown.0 == (
        Call::WindowDestroy { window: reply }) && window@ == reply && teardown.1 == (if size_of::<
            WindowData<H, T>,
        >() == 0 {
            None
        } else {
            Some(Call::Free { block: block@ })
        }),
{
}

/// Only appear and disappear events came between the events at `j` and `i`.
pub open spec fn only_shown_or_hidden_between(events: Seq<WindowEvent>, j: int, i: int) -> bool {
    forall|k: int|
        #![trigger events[k]]
        j < k < i ==> (events[k] == WindowEvent::Appear || events[k] == WindowEvent::Disappear)
}

proof fn handlers_stay<L, A, D, U, T>(
    states: Seq<WindowData<WindowHandlers<L, A, D, U, T>, T>>,
    events: Seq<WindowEvent>,
    i: int,
) where L: FnMut() -> T, A: FnMut(&mut T), D: FnMut(&mut T), U: FnMut(T)
    requires
        WindowData::runs_through(states, events),
        0 <= i < states.len(),
    ensures
        states[i].window_handlers == states[0].window_handlers,
    decreases i,
{
    if i > 0 {
        handlers_stay(states, events, i - 1);
        assert(states[i - 1].steps(events[i - 1], states[i]));
    }
}

proof fn held_since_load<L, A, D, U, T>(
    states: Seq<WindowData<WindowHandlers<L, A, D, U, T>, T>>,
    events: Seq<WindowEvent>,
    i: int,
) where L: FnMut() -> T, A: FnMut(&mut T), D: FnMut(&mut T), U: FnMut(T)
    requires
        WindowData::runs_through(states, events),
        states[0].user_data is None,
        0 <= i < states.len(),
        states[i].user_data is Some,
    ensures
        exists|j: int|
            #![trigger events[j]]
            0 <= j < i && events[j] == WindowEvent::Load && only_shown_or_hidden_between(
                events,
                j,
                i,
            ),
    decreases i,
{
    let e = events[i - 1];
    assert(states[i - 1].steps(e, states[i]));
    if e == WindowEvent::Load {
        assert(only_shown_or_hidden_between(events, i - 1, i));
    } else {
        held_since_load(states, events, i - 1);
        let j = choose|j: int|
            #![trigger events[j]]
            0 <= j < i - 1 && events[j] == WindowEvent::Load && only_shown_or_hidden_between(
                events,
                j,
                i - 1,
            );
        assert(only_shown_or_hidden_between(events, j, i));
    }
}

/// The life of a window's data, over any events that the system reports to
/// a window that is not loaded: the handlers never change; the window holds
/// data exactly from a load until the next unload; each load keeps the value
/// that the `load` handler returned; each appear and disappear event runs the
/// matching handler on the value held; and each unload hands the `unload`
/// handler the value held since the latest load, with only appear and
/// disappear events in between, so that no value is unloaded twice.
pub proof fn window_life<L, A, D, U, T>(
    states: Seq<WindowData<WindowHandlers<L, A, D, U, T>, T>>,
    events: Seq<WindowEvent>,
) where L: FnMut() -> T, A: FnMut(&mut T), D: FnMut(&mut T), U: FnMut(T)
    requires
        WindowData::runs_through(states, events),
        states[0].user_data is None,
    ensures
        forall|i: int|
            #![trigger events[i]]
            0 <= i < events.len() && events[i] == WindowEvent::Appear ==> exists|d: &mut T|
                #![auto]
                *d == states[i].user_data->0 && call_ensures(
                    states[0].window_handlers.appear,
                    (d,),
                    (),
                ),
        forall|i: int|
            #![trigger events[i]]
            0 <= i < events.len() && events[i] == WindowEvent::Disappear ==> exists|d: &mut T|
                #![auto]
                *d == states[i].user_data->0 && call_ensures(
                    states[0].window_handlers.disappear,
                    (d,),
                    (),
                ),
        forall|i: int|
            0 <= i < states.len() ==> #[trigger] states[i].window_handlers
                == states[0].window_handlers,
        forall|i: int|
            #![trigger events[i]]
            0 <= i < events.len() ==> (states[i + 1].user_data is Some <==> events[i]
                != WindowEvent::Unload),
        forall|i: int|
            #![trigger events[i]]
            0 <= i < events.len() && events[i] == WindowEvent::Load ==> call_ensures(
                states[0].window_handlers.load,
                (),
                states[i + 1].user_data->0,
            ),
        forall|i: int|
            #![trigger events[i]]
            0 <= i < events.len() && events[i] == WindowEvent::Unload ==> call_ensures(
                states[0].window_handlers.unload,
                (states[i].user_data->0,),
                (),
            ),
        forall|i: int|
            #![trigger events[i]]
            0 <= i < events.len() && events[i] == WindowEvent::Unload ==> exists|j: int|
                #![trigger events[j]]
                0 <= j < i && events[j] == WindowEvent::Load && only_shown_or_hidden_between(
                    events,
                    j,
                    i,
                ),
{
    assert forall|i: int|
        #![trigger events[i]]
        0 <= i < events.len() && events[i] == WindowEvent::Appear implies exists|d: &mut T|
        #![auto]
        *d == states[i].user_data->0 && call_ensures(states[0].window_handlers.appear, (d,), ()) by {
        handlers_stay(states, events, i);
        assert(states[i].steps(events[i], states[i + 1]));
    }
    assert forall|i: int|
        #![trigger events[i]]
        0 <= i < events.len() && events[i] == WindowEvent::Disappear implies exists|d: &mut T|
        #![auto]
        *d == states[i].user_data->0 && call_ensures(states[0].window_handlers.disappear, (d,), ()) by {
        handlers_stay(states, events, i);
        assert(states[i].steps(events[i], states[i + 1]));
    }
    assert forall|i: int| 0 <= i < states.len() implies #[trigger] states[i].window_handlers
        == states[0].window_handlers by {
        handlers_stay(states, events, i);
    }
    assert forall|i: int|
        #![trigger events[i]]
        0 <= i < events.len() && events[i] == WindowEvent::Unload implies exists|j: int|
        #![trigger events[j]]
        0 <= j < i && events[j] == WindowEvent::Load && only_shown_or_hidden_between(
            events,
            j,
            i,
        ) by {
        assert(states[i].steps(events[i], states[i + 1]));
        held_since_load(states, events, i);
    }
    assert forall|i: int|
        #![trigger events[i]]
        0 <= i < events.len() && events[i] == WindowEvent::Load implies call_ensures(
        states[0].window_handlers.load,
        (),
        states[i + 1].user_data->0,
    ) by {
        handlers_stay(states, events, i);
    }
    assert forall|i: int|
        #![trigger events[i]]
        0 <= i < events.len() && events[i] == WindowEvent::Unload implies call_ensures(
        states[0].window_handlers.unload,
        (states[i].user_data->0,),
        (),
    ) by {
        handlers_stay(states, events, i);
    }
}

} // verus!
