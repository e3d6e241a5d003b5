//! Building blocks for cooperative tasks: the result of a poll, the
//! suspension point that yields exactly once, tasks built from suspension
//! points, and handles onto state shared between a task and its driver.
use vstd::prelude::*;

verus! {

/// What one poll of a suspendable computation reports.
pub enum Poll<T> {
    /// Not finished: poll again on the next tick.
    Pending,
    /// Finished, with the single output value.
    Ready(T),
}

impl<T> Poll<T> {
    pub fn is_pending(&self) -> (b: bool)
        ensures
            b == (*self is Pending),
    {
        match self {
            Poll::Pending => true,
            Poll::Ready(_) => false,
        }
    }

    pub fn is_ready(&self) -> (b: bool)
        ensures
            b == (*self is Ready),
    {
        match self {
            Poll::Pending => false,
            Poll::Ready(_) => true,
        }
    }
}

/// A computation that is driven forward by being polled.
///
/// A poll runs the computation up to its next suspension point or to its
/// end. The output is produced at most once; a finished task must not be
/// polled again.
pub trait Task {
    /// State that the driver lends to the task for the length of one poll.
    type Shared;

    type Output;

    /// What must hold of the task and the shared state between polls.
    spec fn inv(&self, shared: &Self::Shared) -> bool;

    /// The task has produced its output.
    spec fn finished(&self) -> bool;

    /// Number of polls made of the task so far.
    spec fn polls(&self) -> nat;

    /// What one poll does: how the task and the shared state are after a
    /// poll that reported `r`, seen from how they were before it.
    spec fn stepped(
        &self,
        before: &Self,
        shared: &Self::Shared,
        shared_before: &Self::Shared,
        r: Poll<Self::Output>,
    ) -> bool;

    fn poll(&mut self, shared: &mut Self::Shared) -> (r: Poll<Self::Output>)
        requires
            old(self).inv(old(shared)),
            !old(self).finished(),
        ensures
            final(self).inv(final(shared)),
            final(self).polls() == old(self).polls() + 1,
            final(self).finished() == (r is Ready),
            final(self).stepped(old(self), final(shared), old(shared), r),
    ;
}

/// The suspension point: pending exactly once, then ready.
///
/// Awaiting one hands control back to the driver for exactly one tick.
pub struct PendingThenReady {
    polled: u8,
}

impl PendingThenReady {
    /// Number of polls made so far: 0, 1 or 2.
    pub closed spec fn polls(&self) -> nat {
        self.polled as nat
    }

    #[verifier::type_invariant]
    spec fn inv(&self) -> bool {
        self.polled <= 2
    }

    /// Polls the suspension point. The first poll reports pending, the
    /// second reports ready; after that it is used up.
    pub fn poll(&mut self) -> (r: Poll<()>)
        requires
            old(self).polls() < 2,
        ensures
            final(self).polls() == old(self).polls() + 1,
            old(self).polls() == 0 ==> r is Pending,
            old(self).polls() == 1 ==> r is Ready,
    {
        if self.polled == 0 {
            self.polled = 1;
            Poll::Pending
        } else {
            self.polled = 2;
            Poll::Ready(())
        }
    }

    /// How often this point has reported pending: 0 before the first poll, 1 after it.
    pub fn was_polled(&self) -> (b: bool)
        ensures
            b == (self.polls() > 0),
    {
        self.polled > 0
    }
}

/// A fresh suspension point, not yet polled.
pub fn wait_once() -> (p: PendingThenReady)
    ensures
        p.polls() == 0,
{
    PendingThenReady { polled: 0 }
}

/// A task that suspends a given number of times in a row and then completes.
pub struct WaitTicks {
    remaining: u32,
    current: Option<PendingThenReady>,
    done: bool,
    polls: Ghost<nat>,
    ticks: Ghost<nat>,
}

impl WaitTicks {
    /// Suspensions still ahead, the one in progress not counted.
    pub closed spec fn remaining(&self) -> nat {
        self.remaining as nat
    }

    /// The task is parked on a suspension point that has reported pending.
    pub closed spec fn suspended(&self) -> bool {
        self.current is Some
    }

    pub closed spec fn is_done(&self) -> bool {
        self.done
    }

    pub closed spec fn poll_count(&self) -> nat {
        self.polls@
    }

    /// Number of suspensions that the task was made with.
    pub closed spec fn ticks(&self) -> nat {
        self.ticks@
    }

    /// A parked task sits on a point that was polled once; a finished one
    /// sits on none. Every poll so far has passed one suspension, but for
    /// the last poll of a finished task.
    pub closed spec fn wf(&self) -> bool {
        &&& self.current matches Some(p) ==> p.polls() == 1
        &&& self.done ==> self.current is None && self.remaining == 0
        &&& self.polls@ + self.remaining == self.ticks@ + if self.done {
            1nat
        } else {
            0nat
        }
    }

    /// A task that will suspend `ticks` times before it completes.
    pub fn new(ticks: u32) -> (w: WaitTicks)
        ensures
            w.wf(),
            w.remaining() == ticks,
            w.ticks() == ticks,
            !w.suspended(),
            !w.is_done(),
            w.poll_count() == 0,
    {
        WaitTicks {
            remaining: ticks,
            current: None,
            done: false,
            polls: Ghost(0),
            ticks: Ghost(ticks as nat),
        }
    }

    /// Suspensions still ahead.
    pub fn ticks_left(&self) -> (n: u32)
        ensures
            n == self.remaining(),
    {
        self.remaining
    }

    /// Resumes the task where it left off. It passes the suspension point it
    /// was parked on, and parks on the next one if any is left.
    pub fn resume(&mut self) -> (r: Poll<()>)
        requires
            old(self).wf(),
            !old(self).is_done(),
        ensures
            final(self).wf(),
            final(self).poll_count() == old(self).poll_count() + 1,
            old(self).remaining() > 0 ==> r is Pending && final(self).suspended()
                && final(self).remaining() == old(self).remaining() - 1 && !final(self).is_done(),
            old(self).remaining() == 0 ==> r is Ready && final(self).is_done()
                && final(self).remaining() == 0 && !final(self).suspended(),
            final(self).ticks() == old(self).ticks(),
            nth_poll_is_pending(final(self).ticks(), final(self).poll_count()) == Some(r is Pending),
            r is Ready == (final(self).poll_count() == final(self).ticks() + 1),
    {
        proof {
            lemma_wait_ticks_takes_exactly_its_ticks(self.ticks@, self.polls@ + 1);
        }
        let ghost before = self.polls@;
        let parked = self.current.take();
        if let Some(mut point) = parked {
            let passed = point.poll();
            assert(passed is Ready);
        }
        if self.remaining > 0 {
            let mut point = wait_once();
            let first = point.poll();
            assert(first is Pending);
            self.remaining = self.remaining - 1;
            self.current = Some(point);
            self.polls = Ghost((before + 1) as nat);
            Poll::Pending
        } else {
            self.done = true;
            self.polls = Ghost((before + 1) as nat);
            Poll::Ready(())
        }
    }
}

impl Task for WaitTicks {
    type Shared = ();

    type Output = ();

    open spec fn inv(&self, shared: &()) -> bool {
        self.wf()
    }

    open spec fn finished(&self) -> bool {
        self.is_done()
    }

    open spec fn polls(&self) -> nat {
        self.poll_count()
    }

    /// A poll passes one suspension point, or the end of the task after
    /// the last one; the number of suspensions that the task was made
    /// with stays.
    open spec fn stepped(&self, before: &Self, shared: &(), shared_before: &(), r: Poll<()>) -> bool {
        &&& self.ticks() == before.ticks()
        &&& self.poll_count() == before.poll_count() + 1
        &&& r is Ready == (self.poll_count() == self.ticks() + 1)
        &&& nth_poll_is_pending(self.ticks(), self.poll_count()) == Some(r is Pending)
    }

    fn poll(&mut self, shared: &mut ()) -> (r: Poll<()>) {
        self.resume()
    }
}

/// A task that awaits another task and does nothing of its own. The task
/// inside is a row of suspensions, or again one that awaits another: a
/// row of suspensions at any depth of calls.
pub enum Nested {
    Plain(WaitTicks),
    Within(Box<Nested>),
}

impl Nested {
    /// Number of tasks that lie around the row of suspensions.
    pub open spec fn depth(&self) -> nat
        decreases self,
    {
        match self {
            Nested::Plain(_) => 0,
            Nested::Within(inner) => 1 + inner.depth(),
        }
    }

    /// The row of suspensions inside.
    pub open spec fn innermost(&self) -> WaitTicks
        decreases self,
    {
        match self {
            Nested::Plain(w) => *w,
            Nested::Within(inner) => inner.innermost(),
        }
    }

    /// A row of `ticks` suspensions with nothing around it.
    pub fn new(ticks: u32) -> (n: Nested)
        ensures
            n is Plain,
            n.depth() == 0,
            n.innermost().wf(),
            n.innermost().ticks() == ticks,
            n.innermost().remaining() == ticks,
            n.innermost().poll_count() == 0,
            !n.innermost().suspended(),
            !n.innermost().is_done(),
    {
        Nested::Plain(WaitTicks::new(ticks))
    }

    /// A task that awaits this one.
    pub fn wrap(self) -> (n: Nested)
        ensures
            n == Nested::Within(Box::new(self)),
            n.depth() == self.depth() + 1,
            n.innermost() == self.innermost(),
    {
        Nested::Within(Box::new(self))
    }

    /// Resumes the task where it left off: the poll goes down to the row
    /// of suspensions, and what that reports comes up unchanged. At every
    /// depth the poll reports what the row with nothing around it would
    /// report: the tasks around it add no suspension and take none away.
    pub fn resume(&mut self) -> (r: Poll<()>)
        requires
            old(self).innermost().wf(),
            !old(self).innermost().is_done(),
        ensures
            final(self).depth() == old(self).depth(),
            final(self).innermost().wf(),
            final(self).innermost().ticks() == old(self).innermost().ticks(),
            final(self).innermost().poll_count() == old(self).innermost().poll_count() + 1,
            final(self).innermost().is_done() == (r is Ready),
            nth_poll_is_pending(
                final(self).innermost().ticks(),
                final(self).innermost().poll_count(),
            ) == Some(r is Pending),
            r is Ready == (final(self).innermost().poll_count() == final(self).innermost().ticks()
                + 1),
        decreases old(self).depth(),
    {
        match self {
            Nested::Plain(w) => w.resume(),
            Nested::Within(inner) => inner.resume(),
        }
    }
}

impl Task for Nested {
    type Shared = ();

    type Output = ();

    open spec fn inv(&self, shared: &()) -> bool {
        self.innermost().wf()
    }

    open spec fn finished(&self) -> bool {
        self.innermost().is_done()
    }

    open spec fn polls(&self) -> nat {
        self.innermost().poll_count()
    }

    /// A poll is a poll of the row of suspensions inside, at the depth
    /// at which it lay before.
    open spec fn stepped(&self, before: &Self, shared: &(), shared_before: &(), r: Poll<()>) -> bool {
        &&& self.depth() == before.depth()
        &&& self.innermost().stepped(&before.innermost(), shared, shared_before, r)
    }

    fn poll(&mut self, shared: &mut ()) -> (r: Poll<()>) {
        self.resume()
    }
}

/// Result of the `k`-th poll (counted from 1) of a task that was created
/// with `ticks` suspensions: `Some(true)` for pending, `Some(false)` for
/// ready, `None` where the task is used up and may not be polled.
pub open spec fn nth_poll_is_pending(ticks: nat, k: nat) -> Option<bool>
    recommends
        k >= 1,
    decreases k,
{
    if k <= 1 {
        Some(ticks > 0)
    } else if ticks == 0 {
        None
    } else {
        nth_poll_is_pending((ticks - 1) as nat, (k - 1) as nat)
    }
}

/// A task built from `ticks` suspensions in a row reports pending on each of
/// its first `ticks` polls and ready on the next one, wherever it resumes
/// from: it takes exactly `ticks` ticks.
pub proof fn lemma_wait_ticks_takes_exactly_its_ticks(ticks: nat, k: nat)
    requires
        k >= 1,
    ensures
        k <= ticks ==> nth_poll_is_pending(ticks, k) == Some(true),
        k == ticks + 1 ==> nth_poll_is_pending(ticks, k) == Some(false),
        k > ticks + 1 ==> nth_poll_is_pending(ticks, k) is None,
    decreases k,
{
    if k > 1 && ticks > 0 {
        lemma_wait_ticks_takes_exactly_its_ticks((ticks - 1) as nat, (k - 1) as nat);
    }
}

/// The storage behind a family of [`SharedMut`] handles: one cell per value.
///
/// A value lives in the store; handles only name its cell. Whoever holds the
/// store mutably is the one side that may write, which is how a driver and
/// the task it polls take turns.
pub struct SharedStore<T> {
    cells: Vec<T>,
}

/// A handle onto one cell of a [`SharedStore`]. Handles made by
/// [`SharedMut::clone`] alias the cell of the handle they were made from.
pub struct SharedMut<T> {
    cell: usize,
    marker: core::marker::PhantomData<T>,
}

impl<T> View for SharedStore<T> {
    type V = Seq<T>;

    closed spec fn view(&self) -> Seq<T> {
        self.cells@
    }
}

impl<T> SharedStore<T> {
    /// A store without cells.
    pub fn new() -> (s: Self)
        ensures
            s@ == Seq::<T>::empty(),
    {
        SharedStore { cells: Vec::new() }
    }

    /// Number of cells.
    pub fn len(&self) -> (n: usize)
        ensures
            n == self@.len(),
    {
        self.cells.len()
    }
}

impl<T> SharedMut<T> {
    /// Index of the cell that this handle names.
    pub closed spec fn cell(&self) -> int {
        self.cell as int
    }

    /// The handle names a cell of `store`.
    pub open spec fn valid(&self, store: &SharedStore<T>) -> bool {
        0 <= self.cell() < store@.len()
    }

    /// Both handles name the same cell.
    pub open spec fn same_storage(&self, other: &SharedMut<T>) -> bool {
        self.cell() == other.cell()
    }

    /// The value seen through this handle.
    pub open spec fn value(&self, store: &SharedStore<T>) -> T
        recommends
            self.valid(store),
    {
        store@[self.cell()]
    }

    /// Puts `inner` into a new cell of `store` and returns the primary handle
    /// onto it. Existing cells keep their values.
    pub fn new(store: &mut SharedStore<T>, inner: T) -> (h: Self)
        ensures
            final(store)@ == old(store)@.push(inner),
            h.cell() == old(store)@.len(),
            h.valid(final(store)),
            h.value(final(store)) == inner,
    {
        let cell = store.cells.len();
        store.cells.push(inner);
        SharedMut { cell, marker: core::marker::PhantomData }
    }

    /// Another handle onto the same cell.
    pub fn clone(this: &Self) -> (h: Self)
        ensures
            h.same_storage(this),
    {
        SharedMut { cell: this.cell, marker: core::marker::PhantomData }
    }

    /// Reads the shared value.
    pub fn get<'a>(&self, store: &'a SharedStore<T>) -> (v: &'a T)
        requires
            self.valid(store),
        ensures
            *v == self.value(store),
    {
        &store.cells[self.cell]
    }

    /// Replaces the shared value and hands back the one it replaces. Every
    /// handle onto the cell sees the new value from now on; all other cells
    /// keep theirs.
    pub fn set(&self, store: &mut SharedStore<T>, value: T) -> (previous: T)
        requires
            self.valid(old(store)),
        ensures
            final(store)@ == old(store)@.update(self.cell(), value),
            previous == self.value(old(store)),
            self.value(final(store)) == value,
    {
        let mut value = value;
        core::mem::swap(&mut store.cells[self.cell], &mut value);
        value
    }
}

/// A value written through one handle is what every handle onto the same
/// cell reads next, and handles onto other cells read what they read before.
pub proof fn lemma_write_is_seen_through_every_alias<T>(
    cells: Seq<T>,
    writer: SharedMut<T>,
    reader: SharedMut<T>,
    value: T,
)
    requires
        0 <= writer.cell() < cells.len(),
        0 <= reader.cell() < cells.len(),
    ensures
        reader.same_storage(&writer) ==> cells.update(writer.cell(), value)[reader.cell()] == value,
        !reader.same_storage(&writer) ==> cells.update(writer.cell(), value)[reader.cell()]
            == cells[reader.cell()],
        cells.update(writer.cell(), value).len() == cells.len(),
{
}

} // verus!
