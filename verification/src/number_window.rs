use vstd::prelude::*;
use vstd::layout::{align_of, layout_for_type_is_valid, size_of};
use core::marker::PhantomData;
use crate::boxed::Box;
use crate::handle::Handle;
use crate::memory::{malloc_call, void};
use crate::system::{self, Call};

verus! {

/// A number window of the system, whose handlers share a context of type `T`.
pub struct NumberWindow<T> {
    handle: Handle<system::NumberWindow>,
    context: PhantomData<T>,
}

impl<T> View for NumberWindow<T> {
    type V = usize;

    /// The address of the system's number window.
    closed spec fn view(&self) -> usize {
        self.handle@
    }
}

/// The handlers of a number window and the context that they share: each
/// handler sees the window (without its context type) and the context.
#[verifier::reject_recursive_types(T)]
pub struct NumberWindowData<
    I: FnMut(&NumberWindow<void>, &mut T),
    D: FnMut(&NumberWindow<void>, &mut T),
    S: FnMut(&NumberWindow<void>, &mut T),
    T,
> {
    pub incremented: I,
    pub decremented: D,
    pub selected: S,
    pub context: T,
}

impl<
    I: FnMut(&NumberWindow<void>, &mut T),
    D: FnMut(&NumberWindow<void>, &mut T),
    S: FnMut(&NumberWindow<void>, &mut T),
    T,
> NumberWindowData<I, D, S, T> {
    /// Runs the `incremented` handler with the context.
    pub fn incremented(&mut self, number_window: &NumberWindow<void>)
        requires
            forall|c: &mut T|
                *c == old(self).context ==> call_requires(old(self).incremented, (number_window, c)),
        ensures
            exists|c: &mut T|
                #![auto]
                *c == old(self).context && *final(c) == final(self).context && call_ensures(
                    old(self).incremented,
                    (number_window, c),
                    (),
                ),
            final(self).decremented == old(self).decremented,
            final(self).selected == old(self).selected,
            final(self).incremented == old(self).incremented,
    {
        (self.incremented)(number_window, &mut self.context)
    }

    /// Runs the `decremented` handler with the context.
    pub fn decremented(&mut self, number_window: &NumberWindow<void>)
        requires
            forall|c: &mut T|
                *c == old(self).context ==> call_requires(old(self).decremented, (number_window, c)),
        ensures
            exists|c: &mut T|
                #![auto]
                *c == old(self).context && *final(c) == final(self).context && call_ensures(
                    old(self).decremented,
                    (number_window, c),
                    (),
                ),
            final(self).incremented == old(self).incremented,
            final(self).selected == old(self).selected,
            final(self).decremented == old(self).decremented,
    {
        (self.decremented)(number_window, &mut self.context)
    }

    /// Runs the `selected` handler with the context.
    pub fn selected(&mut self, number_window: &NumberWindow<void>)
        requires
            forall|c: &mut T|
                *c == old(self).context ==> call_requires(old(self).selected, (number_window, c)),
        ensures
            exists|c: &mut T|
                #![auto]
                *c == old(self).context && *final(c) == final(self).context && call_ensures(
                    old(self).selected,
                    (number_window, c),
                    (),
                ),
            final(self).incremented == old(self).incremented,
            final(self).decremented == old(self).decremented,
            final(self).selected == old(self).selected,
    {
        (self.selected)(number_window, &mut self.context)
    }

    /// `after` has the same handlers as `self`.
    pub open spec fn keeps_handlers(self, after: Self) -> bool {
        &&& after.incremented == self.incremented
        &&& after.decremented == self.decremented
        &&& after.selected == self.selected
    }

    /// The handler for `report` ran once, on `number_window` and `context`.
    pub open spec fn runs(
        self,
        report: NumberWindowReport,
        number_window: &NumberWindow<void>,
        context: &mut T,
    ) -> bool {
        match report {
            NumberWindowReport::Incremented => call_ensures(
                self.incremented,
                (number_window, context),
                (),
            ),
            NumberWindowReport::Decremented => call_ensures(
                self.decremented,
                (number_window, context),
                (),
            ),
            NumberWindowReport::Selected => call_ensures(
                self.selected,
                (number_window, context),
                (),
            ),
        }
    }

    /// The system reports that the number in the window at `raw_window` went
    /// up: the `incremented` handler sees that window.
    pub fn raw_incremented(&mut self, raw_window: usize)
        requires
            raw_window != 0,
            forall|w: &NumberWindow<void>, c: &mut T|
                w@ == raw_window && *c == old(self).context ==> call_requires(
                    old(self).incremented,
                    (w, c),
                ),
        ensures
            exists|w: &NumberWindow<void>, c: &mut T|
                #![auto]
                w@ == raw_window && *c == old(self).context && *final(c) == final(self).context
                    && call_ensures(old(self).incremented, (w, c), ()),
            old(self).keeps_handlers(*final(self)),
            final(self).incremented == old(self).incremented,
            final(self).decremented == old(self).decremented,
            final(self).selected == old(self).selected,
    {
        let fake_window = NumberWindow::<T>::from_raw(raw_window);
        self.incremented(&fake_window.untyped());
        fake_window.abandon();
    }

    /// The system reports that the number in the window at `raw_window` went
    /// down: the `decremented` handler sees that window.
    pub fn raw_decremented(&mut self, raw_window: usize)
        requires
            raw_window != 0,
            forall|w: &NumberWindow<void>, c: &mut T|
                w@ == raw_window && *c == old(self).context ==> call_requires(
                    old(self).decremented,
                    (w, c),
                ),
        ensures
            exists|w: &NumberWindow<void>, c: &mut T|
                #![auto]
                w@ == raw_window && *c == old(self).context && *final(c) == final(self).context
                    && call_ensures(old(self).decremented, (w, c), ()),
            old(self).keeps_handlers(*final(self)),
            final(self).incremented == old(self).incremented,
            final(self).decremented == old(self).decremented,
            final(self).selected == old(self).selected,
    {
        let fake_window = NumberWindow::<T>::from_raw(raw_window);
        self.decremented(&fake_window.untyped());
        fake_window.abandon();
    }

    /// The system reports that the number in the window at `raw_window` was
    /// selected: the `selected` handler sees that window.
    pub fn raw_selected(&mut self, raw_window: usize)
        requires
            raw_window != 0,
            forall|w: &NumberWindow<void>, c: &mut T|
                w@ == raw_window && *c == old(self).context ==> call_requires(
                    old(self).selected,
                    (w, c),
                ),
        ensures
            exists|w: &NumberWindow<void>, c: &mut T|
                #![auto]
                w@ == raw_window && *c == old(self).context && *final(c) == final(self).context
                    && call_ensures(old(self).selected, (w, c), ()),
            old(self).keeps_handlers(*final(self)),
            final(self).incremented == old(self).incremented,
            final(self).decremented == old(self).decremented,
            final(self).selected == old(self).selected,
    {
        let fake_window = NumberWindow::<T>::from_raw(raw_window);
        self.selected(&fake_window.untyped());
        fake_window.abandon();
    }
}

/// The reports that the system makes to a number window's handlers.
#[derive(Clone, Copy, Debug, PartialEq, Eq, Structural)]
pub enum NumberWindowReport {
    Incremented,
    Decremented,
    Selected,
}

/// A number window under construction, waiting for the reply to a call.
#[verifier::reject_recursive_types(N)]
pub enum NumberWindowBuild<N, T> {
    /// The handlers and context wait for a block of the heap.
    Allocating { label: usize, data: N, context: PhantomData<T> },
    /// They have their block; the system's number window waits to be created.
    Creating { data: N, block: Box<N>, context: PhantomData<T> },
}

/// Where the construction of a number window stands.
#[verifier::reject_recursive_types(N)]
pub enum NumberWindowProgress<N, T> {
    /// Make `call` and hand its reply to `NumberWindowBuild::resume`.
    Pending { build: NumberWindowBuild<N, T>, call: Call },
    /// The number window could not be made; the handlers and context come
    /// back, and the block that was granted for them, if any, is to be freed
    /// with `release`.
    Failed { data: N, release: Option<Call> },
    /// The number window exists: write `data` into `block`, whose address the
    /// system keeps as the context of the handlers.
    Created { window: NumberWindow<T>, data: N, block: Box<N> },
}

impl<N, T> NumberWindowBuild<N, T> {
    /// The handlers and context that the number window is being made with.
    pub open spec fn data(self) -> N {
        match self {
            NumberWindowBuild::Allocating { data, .. } => data,
            NumberWindowBuild::Creating { data, .. } => data,
        }
    }

    /// How a construction continues from `self` once `reply` came back.
    pub open spec fn resumes_to(self, reply: usize, progress: NumberWindowProgress<N, T>) -> bool {
        match self {
            NumberWindowBuild::Allocating { label, data, .. } => if size_of::<N>() != 0 && reply
                == 0 {
                progress == (NumberWindowProgress::<N, T>::Failed { data, release: None })
            } else {
                let address = if size_of::<N>() == 0 {
                    align_of::<N>() as usize
                } else {
                    reply
                };
                &&& progress matches NumberWindowProgress::Pending { build, call }
                &&& call == (Call::NumberWindowCreate { label, context: address })
                &&& build matches NumberWindowBuild::Creating { data: d, block, .. }
                &&& d == data
                &&& block@ == address
            },
            NumberWindowBuild::Creating { data, block, .. } => if reply == 0 {
                progress == (NumberWindowProgress::<N, T>::Failed {
                    data,
                    release: if size_of::<N>() == 0 {
                        None
                    } else {
                        Some(Call::Free { block: block@ })
                    },
                })
            } else {
                &&& progress matches NumberWindowProgress::Created { window, data: d, block: b }
                &&& window@ == reply
                &&& d == data
                &&& b == block
            },
        }
    }

    /// Continues the construction with the reply to the pending call: a
    /// failed allocation or a failed creation ends it and gives the handlers
    /// and context back; after a failed creation, their block is to be freed.
    pub fn resume(self, reply: usize) -> (progress: NumberWindowProgress<N, T>)
        ensures
            self.resumes_to(reply, progress),
    {
        layout_for_type_is_valid::<N>();
        match self {
            NumberWindowBuild::Allocating { label, data, context } => match Box::<N>::placed(
                reply,
            ) {
                Ok(block) => {
                    let call = Call::NumberWindowCreate { label, context: block.address() };
                    NumberWindowProgress::Pending {
                        build: NumberWindowBuild::Creating { data, block, context },
                        call,
                    }
                },
                Err(()) => NumberWindowProgress::Failed { data, release: None },
            },
            NumberWindowBuild::Creating { data, block, .. } => {
                if reply == 0 {
                    NumberWindowProgress::Failed { data, release: Box::release(block) }
                } else {
                    NumberWindowProgress::Created {
                        window: NumberWindow::from_raw(reply),
                        data,
                        block,
                    }
                }
            },
        }
    }
}

/// The first step of building a number window labelled by the string at
/// `label`, with `data`.
pub open spec fn starts_number_window<N, T>(
    label: usize,
    data: N,
    progress: NumberWindowProgress<N, T>,
) -> bool {
    match malloc_call(size_of::<N>() as usize) {
        Some(call) => {
            &&& progress matches NumberWindowProgress::Pending { build, call: c }
            &&& c == call
            &&& build matches NumberWindowBuild::Allocating { label: l, data: d, .. }
            &&& l == label
            &&& d == data
        },
        None => {
            &&& progress matches NumberWindowProgress::Pending { build, call }
            &&& call == (Call::NumberWindowCreate {
                label,
                context: align_of::<N>() as usize,
            })
            &&& build matches NumberWindowBuild::Creating { data: d, block, .. }
            &&& d == data
            &&& block@ == align_of::<N>() as usize
        },
    }
}

impl<T> NumberWindow<T> {
    /// Starts building a number window labelled by the string at `label`:
    /// the handlers and their context first need a block of the heap (unless
    /// they take no room), whose address becomes the context that the system
    /// hands back to the handlers; then the system's number window is created.
    pub fn new<
        I: FnMut(&NumberWindow<void>, &mut T),
        D: FnMut(&NumberWindow<void>, &mut T),
        S: FnMut(&NumberWindow<void>, &mut T),
    >(label: usize, number_window_data: NumberWindowData<I, D, S, T>) -> (progress:
        NumberWindowProgress<NumberWindowData<I, D, S, T>, T>)
        ensures
            starts_number_window(label, number_window_data, progress),
    {
        layout_for_type_is_valid::<NumberWindowData<I, D, S, T>>();
        match Box::<NumberWindowData<I, D, S, T>>::allocation() {
            Some(call) => NumberWindowProgress::Pending {
                build: NumberWindowBuild::Allocating {
                    label,
                    data: number_window_data,
                    context: PhantomData,
                },
                call,
            },
            None => match Box::<NumberWindowData<I, D, S, T>>::placed(0) {
                Ok(block) => {
                    let call = Call::NumberWindowCreate { label, context: block.address() };
                    NumberWindowProgress::Pending {
                        build: NumberWindowBuild::Creating {
                            data: number_window_data,
                            block,
                            context: PhantomData,
                        },
                        call,
                    }
                },
                Err(()) => NumberWindowProgress::Failed { data: number_window_data, release: None },
            },
        }
    }

    /// The number window whose system object is at `raw_window`.
    pub fn from_raw(raw_window: usize) -> (window: Self)
        requires
            raw_window != 0,
        ensures
            window@ == raw_window,
    {
        NumberWindow { handle: Handle::new(raw_window), context: PhantomData }
    }

    /// Gives up this number window and returns the address of the system's
    /// number window; its handlers and context stay in the heap.
    pub fn leak(self) -> (raw_window: usize)
        ensures
            raw_window == self@,
            raw_window != 0,
    {
        self.handle.unwrap()
    }

    /// Discards this number window without touching the system's object.
    pub fn abandon(self) {
    }

    /// The same number window, without access to its context.
    pub fn untyped(&self) -> (window: NumberWindow<void>)
        ensures
            window@ == self@,
    {
        NumberWindow { handle: self.handle.duplicate(), context: PhantomData }
    }

    /// Asks for the system window of this number window; the reply, never
    /// null, makes a `WindowRef` (or a `WindowRefMut`, from `window_mut`).
    pub fn window(&self) -> (call: Call)
        ensures
            call == (Call::NumberWindowGetWindow { number_window: self@ }),
    {
        Call::NumberWindowGetWindow { number_window: self.handle.address() }
    }

    /// Asks for the system window of this number window, to change it.
    pub fn window_mut(&mut self) -> (call: Call)
        ensures
            call == (Call::NumberWindowGetWindow { number_window: old(self)@ }),
            final(self)@ == old(self)@,
    {
        Call::NumberWindowGetWindow { number_window: self.handle.address() }
    }
}

} // verus!

verus! {

/// Building a number window labelled by the string at `label` with `data`,
/// from its first call to its end, for any replies `first_reply` and
/// `second_reply` of the system:
/// - where the handlers and context take room, the first call asks the
///   allocator for a block of exactly their size; a null reply ends the
///   construction with the data back and nothing to free; a granted block is
///   followed by the creation of the system's number window, with the label
///   it was asked for and the granted block as the handlers' context; a null
///   number window ends it with the data back and the granted block to be
///   freed; a created number window is the one the system made, with the
///   data going into the granted block;
/// - where they take no room, no block is asked for: the first call creates
///   the system's number window with the label and the dangling address as
///   the context.
pub proof fn number_window_construction<N, T>(
    label: usize,
    data: N,
    first: NumberWindowProgress<N, T>,
    first_reply: usize,
    second: NumberWindowProgress<N, T>,
    second_reply: usize,
    third: NumberWindowProgress<N, T>,
)
    requires
        size_of::<N>() <= usize::MAX,
        align_of::<N>() <= usize::MAX,
        starts_number_window(label, data, first),
        first matches NumberWindowProgress::Pending { build, .. } ==> build.resumes_to(
            first_reply,
            second,
        ),
        second matches NumberWindowProgress::Pending { build, .. } ==> build.resumes_to(
            second_reply,
            third,
        ),
    ensures
        size_of::<N>() != 0 ==> {
            &&& first matches NumberWindowProgress::Pending { build, call }
            &&& call == Call::Malloc { size: size_of::<N>() as usize }
            &&& build matches NumberWindowBuild::Allocating { label: l, data: d, .. }
            &&& l == label
            &&& d == data
        },
        size_of::<N>() != 0 && first_reply == 0 ==> second == (NumberWindowProgress::<
            N,
            T,
        >::Failed { data, release: None }),
        size_of::<N>() != 0 && first_reply != 0 ==> {
            &&& second matches NumberWindowProgress::Pending { build, call }
            &&& call == Call::NumberWindowCreate { label, context: first_reply }
            &&& build matches NumberWindowBuild::Creating { data: d, block, .. }
            &&& d == data
            &&& block@ == first_reply
        },
        size_of::<N>() != 0 && first_reply != 0 && second_reply == 0 ==> third == (
        NumberWindowProgress::<N, T>::Failed {
            data,
            release: Some(Call::Free { block: first_reply }),
        }),
        size_of::<N>() != 0 && first_reply != 0 && second_reply != 0 ==> {
            &&& third matches NumberWindowProgress::Created { window, data: d, block }
            &&& window@ == second_reply
            &&& d == data
            &&& block@ == first_reply
        },
        size_of::<N>() == 0 ==> {
            &&& first matches NumberWindowProgress::Pending { build, call }
            &&& call == Call::NumberWindowCreate {
                label,
                context: align_of::<N>() as usize,
            }
            &&& build matches NumberWindowBuild::Creating { data: d, block, .. }
            &&& d == data
            &&& block@ == align_of::<N>() as usize
        },
        size_of::<N>() == 0 && first_reply == 0 ==> second == (NumberWindowProgress::<
            N,
            T,
        >::Failed { data, release: None }),
        size_of::<N>() == 0 && first_reply != 0 ==> {
            &&& second matches NumberWindowProgress::Created { window, data: d, block }
            &&& window@ == first_reply
            &&& d == data
            &&& block@ == align_of::<N>() as usize
        },
{
}

/// Every step of a number window's construction keeps the handlers and
/// context that it started with: a pending step carries them on, a failed
/// one gives them back, and a finished one hands them over for their block.
pub proof fn number_window_construction_keeps_data<N, T>(
    build: NumberWindowBuild<N, T>,
    reply: usize,
    progress: NumberWindowProgress<N, T>,
)
    requires
        build.resumes_to(reply, progress),
    ensures
        progress matches NumberWindowProgress::Pending { build: next, .. } ==> next.data()
            == build.data(),
        progress matches NumberWindowProgress::Failed { data, .. } ==> data == build.data(),
        progress matches NumberWindowProgress::Created { data, .. } ==> data == build.data(),
{
}

/// A number window's construction starts with the handlers and context it
/// was given, labelled as asked.
pub proof fn number_window_starts_with_its_data<N, T>(
    label: usize,
    data: N,
    progress: NumberWindowProgress<N, T>,
)
    requires
        starts_number_window(label, data, progress),
    ensures
        progress matches NumberWindowProgress::Pending { build, .. } && build.data() == data,
{
}

/// A construction that fails before any block was granted frees nothing;
/// one that fails once the handlers and context have their block asks to free
/// that very block (unless they take no room), so that no failure leaves a
/// block behind.
pub proof fn failed_number_window_construction_frees_its_block<N, T>(
    build: NumberWindowBuild<N, T>,
    reply: usize,
    progress: NumberWindowProgress<N, T>,
    creation_reply: usize,
    outcome: NumberWindowProgress<N, T>,
)
    requires
        build is Allocating,
        build.resumes_to(reply, progress),
        progress matches NumberWindowProgress::Pending { build: next, .. } ==> next.resumes_to(
            creation_reply,
            outcome,
        ),
    ensures
        progress matches NumberWindowProgress::Failed { release, .. } ==> release is None,
        progress is Pending ==> (outcome matches NumberWindowProgress::Failed { release, .. }
            ==> release == (if size_of::<N>() == 0 {
            None
        } else {
            Some(Call::Free { block: reply })
        })),
{
}

/// The context that the system is given for the handlers is the block that
/// will hold them once the number window exists.
pub proof fn number_window_context_is_its_block<N, T>(
    build: NumberWindowBuild<N, T>,
    reply: usize,
    progress: NumberWindowProgress<N, T>,
    creation_reply: usize,
    outcome: NumberWindowProgress<N, T>,
)
    requires
        build is Allocating,
        build.resumes_to(reply, progress),
        progress matches NumberWindowProgress::Pending { build: next, .. } ==> next.resumes_to(
            creation_reply,
            outcome,
        ),
    ensures
        progress matches NumberWindowProgress::Pending { call, .. } ==> (call matches Call::NumberWindowCreate {
            context,
            ..
        } && (outcome matches NumberWindowProgress::Created { block, window, .. } ==> block@
            == context && window@ == creation_reply)),
        progress matches NumberWindowProgress::Pending { .. } ==> (outcome is Failed
            <==> creation_reply == 0),
{
}

/// Over any series of reports on the number window at `raw_window` (each
/// one handled as `raw_incremented`, `raw_decremented` and `raw_selected`
/// state): the handlers never change, so that the handler that runs for each
/// report, on a window at `raw_window` and on the context as the previous
/// report left it, is the very handler that the window was made with.
pub proof fn number_window_reports<I, D, S, T>(
    states: Seq<NumberWindowData<I, D, S, T>>,
    reports: Seq<NumberWindowReport>,
) where
    I: FnMut(&NumberWindow<void>, &mut T),
    D: FnMut(&NumberWindow<void>, &mut T),
    S: FnMut(&NumberWindow<void>, &mut T),

    requires
        states.len() == reports.len() + 1,
        forall|i: int|
            #![trigger states[i]]
            0 <= i < reports.len() ==> states[i].keeps_handlers(states[i + 1]),
    ensures
        forall|i: int|
            #![trigger states[i]]
            0 <= i < states.len() ==> states[i].incremented == states[0].incremented
                && states[i].decremented == states[0].decremented && states[i].selected
                == states[0].selected,
        forall|i: int, w: &NumberWindow<void>, c: &mut T|
            #![trigger states[i].runs(reports[i], w, c)]
            0 <= i < reports.len() ==> (states[i].runs(reports[i], w, c) <==> states[0].runs(
                reports[i],
                w,
                c,
            )),
{
    assert forall|i: int|
        #![trigger states[i]]
        0 <= i < states.len() implies states[i].incremented == states[0].incremented
        && states[i].decremented == states[0].decremented && states[i].selected
        == states[0].selected by {
        handlers_stay_across_reports(states, reports, i);
    }
}

proof fn handlers_stay_across_reports<I, D, S, T>(
    states: Seq<NumberWindowData<I, D, S, T>>,
    reports: Seq<NumberWindowReport>,
    i: int,
) where
    I: FnMut(&NumberWindow<void>, &mut T),
    D: FnMut(&NumberWindow<void>, &mut T),
    S: FnMut(&NumberWindow<void>, &mut T),

    requires
        states.len() == reports.len() + 1,
        forall|k: int|
            #![trigger states[k]]
            0 <= k < reports.len() ==> states[k].keeps_handlers(states[k + 1]),
        0 <= i < states.len(),
    ensures
        states[0].keeps_handlers(states[i]),
    decreases i,
{
    if i > 0 {
        handlers_stay_across_reports(states, reports, i - 1);
        assert(states[i - 1].keeps_handlers(states[i]));
    }
}

} // verus!
