//! The streams of one kind that the application opens: which identifier comes next, and who waits
//! until the peer allows another stream.

use std::task::Waker;

use vstd::prelude::*;

verus! {

/// The streams of one kind that the application opens.
pub struct Opening {
    // The identifier of the next stream.
    next: u64,
    // How many streams the peer allowed when the driver last asked, those that the driver opened
    // since not included.
    left: u64,
    // How many streams the application was given that the driver has not opened yet.
    queued: u64,
    // The tasks that wait until the peer allows another stream.
    wakers: Vec<Waker>,
}

/// What an [`Opening`] holds.
#[verifier::ext_equal]
pub ghost struct OpeningView {
    /// The identifier of the next stream.
    pub next: u64,
    /// How many more streams the driver can open.
    pub left: u64,
    /// How many streams wait for the driver to open them.
    pub queued: u64,
    /// The tasks that wait for a stream, in the order in which they came.
    pub wakers: Seq<Waker>,
}

impl OpeningView {
    /// The peer has not allowed a stream yet.
    pub open spec fn new(next: u64) -> OpeningView {
        OpeningView { next, left: 0, queued: 0, wakers: Seq::empty() }
    }

    /// Whether the peer allows one more stream than those that wait to be opened.
    pub open spec fn allows(self) -> bool {
        self.queued < self.left
    }

    /// A task waits for a stream.
    pub open spec fn blocked(self, waker: Waker) -> OpeningView {
        OpeningView { wakers: self.wakers.push(waker), ..self }
    }

    /// The application is given the next stream, which waits for the driver.
    pub open spec fn opened(self) -> OpeningView {
        OpeningView { next: (self.next + 4) as u64, queued: (self.queued + 1) as u64, ..self }
    }

    /// The driver was told how many streams the peer allows: what follows, and the tasks to wake,
    /// which is everyone if a task can go on.
    pub open spec fn allowed(self, left: u64) -> (OpeningView, Seq<Waker>) {
        let now = OpeningView { left, ..self };
        if now.allows() {
            now.released()
        } else {
            (now, Seq::empty())
        }
    }

    /// The driver opens a stream that waited for it.
    pub open spec fn taken(self) -> OpeningView {
        OpeningView {
            left: if self.left > 0 {
                (self.left - 1) as u64
            } else {
                0
            },
            queued: if self.queued > 0 {
                (self.queued - 1) as u64
            } else {
                0
            },
            ..self
        }
    }

    /// Nobody waits any more: what follows, and the tasks to wake.
    pub open spec fn released(self) -> (OpeningView, Seq<Waker>) {
        (OpeningView { wakers: Seq::empty(), ..self }, self.wakers)
    }
}

impl View for Opening {
    type V = OpeningView;

    closed spec fn view(&self) -> OpeningView {
        OpeningView {
            next: self.next,
            left: self.left,
            queued: self.queued,
            wakers: self.wakers@,
        }
    }
}

impl Opening {
    /// The peer has not allowed a stream yet.
    pub fn new(next: u64) -> (r: Opening)
        ensures
            r@ == OpeningView::new(next),
    {
        Opening { next, left: 0, queued: 0, wakers: Vec::new() }
    }

    /// The identifier of the next stream.
    pub fn next(&self) -> (r: u64)
        ensures
            r == self@.next,
    {
        self.next
    }

    /// Whether the peer allows one more stream than those that wait to be opened.
    pub fn allows(&self) -> (r: bool)
        ensures
            r == self@.allows(),
    {
        self.queued < self.left
    }

    /// Keeps a task until the peer allows a stream.
    pub fn block(&mut self, waker: Waker)
        ensures
            final(self)@ == old(self)@.blocked(waker),
    {
        self.wakers.push(waker);
    }

    /// Gives the next stream to the application.
    pub fn open(&mut self)
        requires
            old(self)@.allows(),
            old(self)@.next <= u64::MAX - 4,
        ensures
            final(self)@ == old(self)@.opened(),
    {
        self.next = self.next + 4;
        self.queued = self.queued + 1;
    }

    /// Records how many streams the peer allows, and returns the tasks to wake for it.
    pub fn allow(&mut self, left: u64) -> (r: Vec<Waker>)
        ensures
            (final(self)@, r@) == old(self)@.allowed(left),
    {
        self.left = left;
        if self.allows() {
            self.release()
        } else {
            Vec::new()
        }
    }

    /// Records that the driver opens a stream that waited for it.
    pub fn take(&mut self)
        ensures
            final(self)@ == old(self)@.taken(),
    {
        self.left = self.left.saturating_sub(1);
        self.queued = self.queued.saturating_sub(1);
    }

    /// Returns all tasks that wait, which are to be woken.
    pub fn release(&mut self) -> (r: Vec<Waker>)
        ensures
            (final(self)@, r@) == old(self)@.released(),
    {
        let mut wakers: Vec<Waker> = Vec::new();
        std::mem::swap(&mut wakers, &mut self.wakers);
        wakers
    }
}

} // verus!
