//! The streams that wait for the driver.

use std::collections::HashSet;
use std::task::Waker;
use vstd::prelude::*;

verus! {

/// Streams that need to be flushed to the connection, and the driver that will do it.
pub struct DriverWakeup {
    streams: HashSet<u64>,
    waker: Option<Waker>,
}

/// What a [`DriverWakeup`] holds.
#[verifier::ext_equal]
pub ghost struct WakeupView {
    pub streams: Set<u64>,
    pub waker: Option<Waker>,
}

impl WakeupView {
    /// The wakeup after a stream was recorded, and the waker that is to be called.
    pub open spec fn woken(self, stream_id: u64) -> (WakeupView, Option<Waker>) {
        if self.streams.contains(stream_id) {
            (self, None)
        } else {
            (WakeupView { streams: self.streams.insert(stream_id), waker: None }, self.waker)
        }
    }
}

impl View for DriverWakeup {
    type V = WakeupView;

    closed spec fn view(&self) -> WakeupView {
        WakeupView { streams: self.streams@, waker: self.waker }
    }
}

impl Default for DriverWakeup {
    /// No stream waits and no driver is registered.
    fn default() -> (r: DriverWakeup)
        ensures
            r@ == (WakeupView { streams: Set::empty(), waker: None }),
    {
        DriverWakeup { streams: HashSet::new(), waker: None }
    }
}

impl DriverWakeup {
    /// Records that a stream needs to be flushed, and returns the waker of the driver if it has to
    /// be woken for it: a stream that waits already wakes nobody.
    ///
    /// The waker is to be called without holding a lock.
    pub fn waker(&mut self, stream_id: u64) -> (r: Option<Waker>)
        ensures
            (final(self)@, r) == old(self)@.woken(stream_id),
    {
        if !self.streams.insert(stream_id) {
            assert(self@ =~= old(self)@);
            return None;
        }
        self.waker.take()
    }

    /// Registers the waker of the driver and hands it the streams that waited, in some order.
    pub fn register(&mut self, waker: Waker) -> (r: Vec<u64>)
        ensures
            r@.no_duplicates(),
            r@.to_set() == old(self)@.streams,
            final(self)@ == (WakeupView { streams: Set::empty(), waker: Some(waker) }),
    {
        self.waker = Some(waker);
        let mut streams: HashSet<u64> = HashSet::new();
        std::mem::swap(&mut streams, &mut self.streams);
        let mut out: Vec<u64> = Vec::new();
        for id in it: streams.iter()
            invariant
                out@ == it.seq().unref().take(it.index() as int),
        {
            out.push(*id);
        }
        proof {
            let iter = vstd::std_specs::hash::spec_hash_keys_iter(&streams);
            assert(out@ == vstd::std_specs::iter::IteratorSpec::remaining(&iter).unref());
        }
        out
    }
}

/// A driver that has registered is woken by the first stream that needs it and by no other, and
/// finds both when it registers again.
pub proof fn driver_is_woken_once(waker: Waker, first: u64, second: u64)
    ensures
        ({
            let registered = WakeupView { streams: Set::empty(), waker: Some(waker) };
            let (one, woken) = registered.woken(first);
            let (two, again) = one.woken(second);
            &&& woken == Some(waker)
            &&& again is None
            &&& two.streams == set![first, second]
        }),
{
    let registered = WakeupView { streams: Set::empty(), waker: Some(waker) };
    let two = registered.woken(first).0.woken(second).0;
    assert(two.streams =~= set![first, second]);
}

/// A stream that is recorded stays recorded until the driver takes it.
pub proof fn recorded_stream_is_kept(state: WakeupView, id: u64, other: u64)
    ensures
        state.woken(id).0.streams.contains(id),
        state.streams.contains(other) ==> state.woken(id).0.streams.contains(other),
{
}

} // verus!
