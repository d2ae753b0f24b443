//! The call surface around a single sequencer. The sequencer lives in an
//! explicit process-scoped slot; [`init`] must populate the slot before the
//! other calls do any work, and a call that arrives earlier is refused with
//! no side effects. A generic dispatcher funnels every call through one
//! place.

use crate::controller::{descriptor, one_path, two_path, ApiError, Controller};
use crate::rwlock::LocalRuntime;
use vstd::prelude::*;

verus! {

/// The slot a process keeps its one sequencer in. Empty until [`init`] runs;
/// re-initialization simply resets the state.
pub struct Dispatcher {
    slot: Option<Controller<LocalRuntime>>,
}

impl Dispatcher {
    /// Whether [`init`] has populated the slot.
    pub closed spec fn initialized(&self) -> bool {
        self.slot is Some
    }

    /// The sequencer in the slot.
    pub closed spec fn ctrl(&self) -> Controller<LocalRuntime> {
        self.slot->Some_0
    }

    /// An occupied slot holds a well-formed sequencer.
    pub open spec fn wf(&self) -> bool {
        self.initialized() ==> self.ctrl().wf()
    }

    /// The sequence number seen through the slot (0 while it is empty).
    pub open spec fn seq(&self) -> int {
        if self.initialized() {
            self.ctrl().seq()
        } else {
            0
        }
    }

    /// The last descriptor seen through the slot (empty while it is empty).
    pub open spec fn path(&self) -> Seq<char> {
        if self.initialized() {
            self.ctrl().path()
        } else {
            Seq::<char>::empty()
        }
    }

    /// An empty slot: nothing is dispatched until [`init`] runs.
    pub fn new() -> (r: Self)
        ensures
            !r.initialized(),
            r.wf(),
    {
        Dispatcher { slot: None }
    }
}

impl Default for Dispatcher {
    /// An empty slot, as [`Dispatcher::new`] builds.
    fn default() -> (r: Self)
        ensures
            !r.initialized(),
            r.wf(),
    {
        Dispatcher::new()
    }
}

/// Puts a fresh sequencer in the slot, overwriting any previous one.
pub fn init(d: &mut Dispatcher)
    ensures
        final(d).initialized(),
        final(d).wf(),
        final(d).seq() == 0,
        final(d).path() == Seq::<char>::empty(),
{
    d.slot = Some(Controller::new());
}

/// The one place a caller outside the engine meets the sequencer: runs the
/// requested operation on the sequencer in the slot, or refuses with a
/// configuration error, untouched state, if the slot is empty.
pub fn run_method<ArgT, RetT, FnT: FnOnce(Controller<LocalRuntime>, ArgT) -> (
    Controller<LocalRuntime>,
    RetT,
)>(d: &mut Dispatcher, f: FnT, arg: ArgT) -> (r: Result<RetT, ApiError>)
    requires
        old(d).initialized() ==> call_requires(f, (old(d).ctrl(), arg)),
    ensures
        !old(d).initialized() ==> r == Err::<RetT, ApiError>(ApiError::Config) && *final(d)
            == *old(d),
        old(d).initialized() ==> final(d).initialized() && (r matches Ok(ret) && call_ensures(
            f,
            (old(d).ctrl(), arg),
            (final(d).ctrl(), ret),
        )),
{
    match d.slot.take() {
        None => Err(ApiError::Config),
        Some(c) => {
            let (c2, ret) = f(c, arg);
            d.slot = Some(c2);
            Ok(ret)
        },
    }
}

/// Dispatches a `one` request: the result is the sequence number the request
/// was assigned, or the business refusal for `val == 3`, or the
/// configuration error while the slot is empty.
pub fn one(d: &mut Dispatcher, val: i32) -> (r: Result<i32, ApiError>)
    requires
        old(d).wf(),
        val != 3 ==> old(d).seq() < i32::MAX,
    ensures
        final(d).wf(),
        !old(d).initialized() ==> r == Err::<i32, ApiError>(ApiError::Config) && *final(d) == *old(
            d,
        ),
        old(d).initialized() ==> final(d).initialized(),
        old(d).initialized() && val == 3 ==> r == Err::<i32, ApiError>(ApiError::Business)
            && final(d).seq() == old(d).seq() && final(d).path() == old(d).path(),
        old(d).initialized() && val != 3 ==> {
            &&& final(d).seq() == old(d).seq() + 1
            &&& final(d).path() == descriptor(one_path(val as int), old(d).seq() + 1)
            &&& r == Ok::<i32, ApiError>((old(d).seq() + 1) as i32)
        },
{
    let f = |c: Controller<LocalRuntime>, v: i32| -> (out: (
        Controller<LocalRuntime>,
        Result<i32, ApiError>,
    ))
        requires
            c.wf(),
            v != 3 ==> c.seq() < i32::MAX,
        ensures
            out.0.wf(),
            v == 3 ==> out.1 == Err::<i32, ApiError>(ApiError::Business) && out.0 == c,
            v != 3 ==> {
                &&& out.0.seq() == c.seq() + 1
                &&& out.0.path() == descriptor(one_path(v as int), c.seq() + 1)
                &&& out.1 == Ok::<i32, ApiError>((c.seq() + 1) as i32)
            },
        {
            let mut c = c;
            let ret = c.one(v);
            (c, ret)
        };
    match run_method(d, f, val) {
        Err(e) => Err(e),
        Ok(inner) => inner,
    }
}

/// Dispatches a `two` request: the result is the descriptor the request left
/// behind, or the configuration error while the slot is empty.
pub fn two(d: &mut Dispatcher, val: &str) -> (r: Result<String, ApiError>)
    requires
        old(d).wf(),
        old(d).seq() < i32::MAX,
    ensures
        final(d).wf(),
        !old(d).initialized() ==> r == Err::<String, ApiError>(ApiError::Config) && *final(d)
            == *old(d),
        old(d).initialized() ==> {
            &&& final(d).initialized()
            &&& final(d).seq() == old(d).seq() + 1
            &&& final(d).path() == descriptor(two_path(val@), old(d).seq() + 1)
            &&& (r matches Ok(s) && s@ == final(d).path())
        },
{
    let f = |c: Controller<LocalRuntime>, v: &str| -> (out: (
        Controller<LocalRuntime>,
        Result<String, ApiError>,
    ))
        requires
            c.wf(),
            c.seq() < i32::MAX,
        ensures
            out.0.wf(),
            out.0.seq() == c.seq() + 1,
            out.0.path() == descriptor(two_path(v@), c.seq() + 1),
            out.1 matches Ok(s) && s@ == out.0.path(),
        {
            let mut c = c;
            let ret = c.two(v);
            (c, ret)
        };
    match run_method(d, f, val) {
        Err(e) => Err(e),
        Ok(inner) => inner,
    }
}

} // verus!

