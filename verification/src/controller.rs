//! The sequencer: the stateful component that keeps request bookkeeping
//! behind the lock abstraction. It is generic over the backend and reaches
//! its own state only through the boxed lock, holding exclusive access across
//! the whole read-modify-write step.

use crate::numfmt::{dec_int, i32_to_string};
use crate::runtime::{AsyncRwLock, Locker, Runtime};
use vstd::prelude::*;
use vstd::string::StringExecFns;

verus! {

/// The errors the call surface reports. Both are ordinary results, handed to
/// the caller verbatim, with no retry inside the core.
#[derive(Clone, Copy, Debug, PartialEq, Eq, Structural)]
pub enum ApiError {
    /// A request was rejected up front by the business rule; no state was
    /// touched.
    Business,
    /// A call was dispatched before initialization; no state was touched.
    Config,
}

impl ApiError {
    /// The wording of the error.
    pub open spec fn text(&self) -> Seq<char> {
        match self {
            ApiError::Business => "sorry, not that one"@,
            ApiError::Config => "call init first"@,
        }
    }

    /// The error's wording, for reporting to a caller.
    pub fn message(&self) -> (r: String)
        ensures
            r@ == self.text(),
    {
        match self {
            ApiError::Business => String::from_str("sorry, not that one"),
            ApiError::Config => String::from_str("call init first"),
        }
    }
}

/// The request bookkeeping: how many mutations have completed, and the
/// descriptor of the most recently completed one.
pub struct ReqData {
    pub seq: i32,
    pub last_path: String,
}

impl Default for ReqData {
    /// The state of a fresh sequencer: no requests yet.
    fn default() -> (r: Self)
        ensures
            r.seq == 0,
            r.last_path@ == Seq::<char>::empty(),
    {
        ReqData { seq: 0, last_path: String::new() }
    }
}

/// The business rule: a `one` request is permitted for every value but 3.
pub fn permitted(val: i32) -> (r: bool)
    ensures
        r == (val != 3),
{
    val != 3
}

/// The request path of `one`, for example `one?val=5`.
pub open spec fn one_path(val: int) -> Seq<char> {
    "one?val="@ + dec_int(val)
}

/// The request path of `two`, for example `two?val=potato`.
pub open spec fn two_path(val: Seq<char>) -> Seq<char> {
    "two?val="@ + val
}

/// The descriptor a completed mutation leaves behind: the request path with
/// the sequence number the mutation was assigned, for example
/// `two?val=potato&seq=2`.
pub open spec fn descriptor(path: Seq<char>, n: int) -> Seq<char> {
    path + "&seq="@ + dec_int(n)
}

/// One mutation step on the bookkeeping: the next sequence number is
/// assigned, and the descriptor embeds that post-increment number. A backend
/// must run this under exclusive access, as [`Controller::request`] does.
pub fn apply_request(data: &ReqData, path: &str) -> (r: ReqData)
    requires
        data.seq < i32::MAX,
    ensures
        r.seq == data.seq + 1,
        r.last_path@ == descriptor(path@, data.seq + 1),
{
    let seq1 = data.seq + 1;
    let mut d = String::from_str(path);
    d.append("&seq=");
    d.append(i32_to_string(seq1).as_str());
    ReqData { seq: seq1, last_path: d }
}

/// The sequencer. It owns its bookkeeping behind a boxed lock built by the
/// chosen backend, without naming the backend's concrete lock type.
pub struct Controller<R: Runtime<ReqData>> {
    req_data: crate::implbox::ImplBox<<R as Locker<ReqData>>::Lock>,
}

impl<R: Runtime<ReqData>> Controller<R> {
    /// The boxed lock.
    pub closed spec fn lock(&self) -> <R as Locker<ReqData>>::Lock {
        self.req_data.value()
    }

    /// The bookkeeping behind the lock.
    pub open spec fn state(&self) -> ReqData {
        self.lock().value()
    }

    /// How many mutations have completed.
    pub open spec fn seq(&self) -> int {
        self.state().seq as int
    }

    /// The descriptor of the most recently completed mutation.
    pub open spec fn path(&self) -> Seq<char> {
        self.state().last_path@
    }

    /// The bookkeeping is consistent: either no mutation has completed yet,
    /// or the descriptor is the one left by the mutation that was assigned
    /// the current sequence number. No state whose descriptor embeds a
    /// number that was never assigned is reachable.
    pub open spec fn consistent(&self) -> bool {
        self.path() == Seq::<char>::empty() || (exists|p: Seq<char>|
            self.path() == descriptor(p, self.seq()))
    }

    /// Between calls, the box carries the backend's tag, the lock is unheld,
    /// the sequence number has never decreased below its start, and the
    /// bookkeeping is consistent.
    pub closed spec fn wf(&self) -> bool {
        &&& self.req_data.tag() == <R as Locker<ReqData>>::lock_tag()
        &&& self.lock().readers() == 0
        &&& !self.lock().writer()
        &&& 0 <= self.state().seq
        &&& self.consistent()
    }

    /// A fresh sequencer: sequence number 0, no descriptor.
    pub fn new() -> (r: Self)
        ensures
            r.wf(),
            r.seq() == 0,
            r.path() == Seq::<char>::empty(),
    {
        Self::default()
    }

    /// The one private mutating step: take exclusive access, apply the
    /// mutation, give the access back. The whole read-modify-write happens
    /// under one exclusive hold. This layer has no failure mode of its own.
    fn request(&mut self, path: &str) -> (r: Result<(), ApiError>)
        requires
            old(self).wf(),
            old(self).seq() < i32::MAX,
        ensures
            final(self).wf(),
            final(self).seq() == old(self).seq() + 1,
            final(self).path() == descriptor(path@, old(self).seq() + 1),
            r == Ok::<(), ApiError>(()),
    {
        let tag = R::tag();
        let lk = self.req_data.borrow_mut(tag);
        let granted = lk.acquire_write();
        assert(granted);
        let next = apply_request(lk.read(), path);
        lk.write(next);
        lk.release_write();
        proof {
            assert(self.consistent()) by {
                assert(self.path() == descriptor(path@, self.seq()));
            }
        }
        Ok(())
    }

    /// Sends a request and returns the sequence number it was assigned.
    /// `val == 3` is rejected by the business rule before any state is
    /// touched.
    pub fn one(&mut self, val: i32) -> (r: Result<i32, ApiError>)
        requires
            old(self).wf(),
            val != 3 ==> old(self).seq() < i32::MAX,
        ensures
            final(self).wf(),
            val == 3 ==> r == Err::<i32, ApiError>(ApiError::Business) && *final(self)
                == *old(self),
            val != 3 ==> {
                &&& final(self).seq() == old(self).seq() + 1
                &&& final(self).path() == descriptor(one_path(val as int), old(self).seq() + 1)
                &&& r == Ok::<i32, ApiError>((old(self).seq() + 1) as i32)
            },
    {
        if !permitted(val) {
            return Err(ApiError::Business);
        }
        let mut p = String::from_str("one?val=");
        p.append(i32_to_string(val).as_str());
        self.request(p.as_str())?;
        let tag = R::tag();
        let lk = self.req_data.borrow_mut(tag);
        let granted = lk.acquire_read();
        assert(granted);
        let s = lk.read().seq;
        lk.release_read();
        proof {
            assert(self.consistent()) by {
                assert(self.path() == descriptor(p@, self.seq()));
            }
        }
        Ok(s)
    }

    /// Sends a request and returns the descriptor it left behind.
    pub fn two(&mut self, val: &str) -> (r: Result<String, ApiError>)
        requires
            old(self).wf(),
            old(self).seq() < i32::MAX,
        ensures
            final(self).wf(),
            final(self).seq() == old(self).seq() + 1,
            final(self).path() == descriptor(two_path(val@), old(self).seq() + 1),
            r matches Ok(s) && s@ == final(self).path(),
    {
        let mut p = String::from_str("two?val=");
        p.append(val);
        self.request(p.as_str())?;
        let tag = R::tag();
        let lk = self.req_data.borrow_mut(tag);
        let granted = lk.acquire_read();
        assert(granted);
        let s = lk.read().last_path.clone();
        lk.release_read();
        proof {
            assert(self.consistent()) by {
                assert(self.path() == descriptor(p@, self.seq()));
            }
        }
        Ok(s)
    }
}

/// The no-torn-state law: any bookkeeping a holder can read from a
/// well-formed sequencer is a consistent pair. A descriptor, once present,
/// embeds exactly the sequence number that was assigned when it was written;
/// no observable state lies between the increment and the descriptor format
/// of one mutation.
pub proof fn lemma_reads_are_consistent<R: Runtime<ReqData>>(c: Controller<R>)
    requires
        c.wf(),
        c.path().len() > 0,
    ensures
        exists|p: Seq<char>| c.path() == descriptor(p, c.seq()),
{
    assert(c.path() != Seq::<char>::empty());
}

impl<R: Runtime<ReqData>> Default for Controller<R> {
    /// A fresh sequencer, its bookkeeping boxed by the backend's factory.
    fn default() -> (r: Self)
        ensures
            r.wf(),
            r.seq() == 0,
            r.path() == Seq::<char>::empty(),
    {
        Controller { req_data: R::box_lock(ReqData::default()) }
    }
}

} // verus!
