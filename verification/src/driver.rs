//! The fixed-timestep loop: banks elapsed time and polls the top-level task
//! once for every full step in the bank.
use vstd::prelude::*;
use vstd::arithmetic::div_mod::*;
use vstd::arithmetic::mul::*;
use crate::async_utils::{Nested, Poll, Task, WaitTicks};

verus! {

/// Length of one simulation step in nanoseconds: a sixtieth of a second.
pub const FRAME_TIME: u64 = 16_666_667;

/// Most steps' worth of time that one frame may add to the bank.
pub const MAX_FRAME_STEPS: u64 = 4;

/// Time keeping of the driving loop. Times are counts of a clock unit that
/// the caller chooses (nanoseconds for [`FRAME_TIME`]).
pub struct Driver {
    step: u64,
    max_steps: u64,
    last_time: Option<u64>,
    time_bank: u64,
    finished: bool,
}

/// What one frame of driving did.
pub struct FrameReport<T> {
    /// Number of polls made of the task during the frame.
    pub polls: u64,
    /// The task's output, where it completed during the frame.
    pub output: Option<T>,
}

/// What the poll at one place of a frame reported: pending, but for the
/// last poll of a frame in which the task gave its output.
pub open spec fn reported<O>(output: Option<O>, last: bool) -> Poll<O> {
    match output {
        Some(v) => if last {
            Poll::Ready(v)
        } else {
            Poll::Pending
        },
        None => Poll::Pending,
    }
}

/// The polls of a frame, one after the other. `states` holds the task
/// with what it shares: first as the frame found them, then as each poll
/// left them. Each poll went on from where the one before it had left
/// off, and every poll but the one that gave the output reported pending.
pub open spec fn polled_in_turn<T: Task>(
    states: Seq<(T, T::Shared)>,
    output: Option<T::Output>,
) -> bool {
    forall|i: int|
        1 <= i < states.len() ==> (#[trigger] states[i]).0.stepped(
            &states[i - 1].0,
            &states[i].1,
            &states[i - 1].1,
            reported(output, i == states.len() - 1),
        )
}

/// A frame made `polls` polls in turn, which led from the task and the
/// shared state `before` to `after`. An output comes from a poll, and
/// then from the last one.
pub open spec fn frame_polls<T: Task>(
    before: (T, T::Shared),
    after: (T, T::Shared),
    polls: nat,
    output: Option<T::Output>,
) -> bool {
    &&& output is Some ==> polls >= 1
    &&& exists|states: Seq<(T, T::Shared)>|
        {
            &&& #[trigger] polled_in_turn(states, output)
            &&& states.len() == polls + 1
            &&& states[0] == before
            &&& states.last() == after
        }
}

impl Driver {
    /// Length of one step.
    pub closed spec fn step(&self) -> nat {
        self.step as nat
    }

    /// Most steps' worth of time that one frame adds to the bank.
    pub closed spec fn max_steps(&self) -> nat {
        self.max_steps as nat
    }

    /// Time of the latest frame, if there was one.
    pub closed spec fn last_time(&self) -> Option<u64> {
        self.last_time
    }

    /// Time banked and not yet spent on a step.
    pub closed spec fn time_bank(&self) -> nat {
        self.time_bank as nat
    }

    /// The task has completed: nothing is polled any more.
    pub closed spec fn finished(&self) -> bool {
        self.finished
    }

    pub closed spec fn wf(&self) -> bool {
        &&& self.step > 0
        &&& self.max_steps > 0
        &&& self.step * self.max_steps + self.step <= u64::MAX
        &&& self.time_bank < self.step
    }

    /// Time that a frame at `now` adds to the bank: one step for the first
    /// frame, else the time since the latest frame, at most `max_steps`
    /// steps' worth. A clock that ran backwards adds nothing.
    pub open spec fn frame_gain(&self, now: u64) -> nat {
        match self.last_time() {
            None => self.step(),
            Some(last) => if now <= last {
                0
            } else if now - last >= self.step() * self.max_steps() {
                self.step() * self.max_steps()
            } else {
                (now - last) as nat
            },
        }
    }

    /// Full steps in the bank once a frame at `now` has added its time.
    pub open spec fn steps_due(&self, now: u64) -> nat {
        (self.time_bank() + self.frame_gain(now)) / self.step()
    }

    /// Time left in the bank once every step due at `now` has been taken.
    pub open spec fn leftover(&self, now: u64) -> nat {
        (self.time_bank() + self.frame_gain(now)) % self.step()
    }

    /// A driver with an empty bank that has seen no frame yet.
    pub fn new(step: u64, max_steps: u64) -> (d: Option<Driver>)
        ensures
            (d is Some) == (step > 0 && max_steps > 0 && step * max_steps + step <= u64::MAX),
            d matches Some(d) ==> d.wf() && d.step() == step && d.max_steps() == max_steps
                && d.last_time() is None && d.time_bank() == 0 && !d.finished(),
    {
        if step == 0 || max_steps == 0 {
            return None;
        }
        match step.checked_mul(max_steps) {
            Some(cap) => match cap.checked_add(step) {
                Some(_) => Some(
                    Driver { step, max_steps, last_time: None, time_bank: 0, finished: false },
                ),
                None => None,
            },
            None => None,
        }
    }

    /// The driver of the game: sixty steps a second, at most four steps caught up per frame.
    pub fn for_game() -> (d: Driver)
        ensures
            d.wf(),
            d.step() == FRAME_TIME,
            d.max_steps() == MAX_FRAME_STEPS,
            d.last_time() is None,
            d.time_bank() == 0,
            !d.finished(),
    {
        Driver {
            step: FRAME_TIME,
            max_steps: MAX_FRAME_STEPS,
            last_time: None,
            time_bank: 0,
            finished: false,
        }
    }

    pub fn is_finished(&self) -> (b: bool)
        ensures
            b == self.finished(),
    {
        self.finished
    }

    /// Time of the latest frame.
    pub fn latest_frame(&self) -> (t: Option<u64>)
        ensures
            t == self.last_time(),
    {
        self.last_time
    }

    pub fn banked_time(&self) -> (t: u64)
        ensures
            t == self.time_bank(),
    {
        self.time_bank
    }

    /// Adds the time of a frame at `now` to the bank.
    fn bank_frame(&mut self, now: u64)
        requires
            old(self).wf(),
            !old(self).finished(),
        ensures
            final(self).step() == old(self).step(),
            final(self).max_steps() == old(self).max_steps(),
            final(self).last_time() == Some(now),
            final(self).time_bank() == old(self).time_bank() + old(self).frame_gain(now),
            !final(self).finished(),
            final(self).step > 0,
            final(self).max_steps > 0,
            final(self).step * final(self).max_steps + final(self).step <= u64::MAX,
            final(self).time_bank() < final(self).step() * final(self).max_steps()
                + final(self).step(),
    {
        let cap: u64 = self.step * self.max_steps;
        let gain: u64 = match self.last_time {
            None => self.step,
            Some(last) => if now <= last {
                0
            } else if now - last >= cap {
                cap
            } else {
                now - last
            },
        };
        assert(self.step <= self.step * self.max_steps) by (nonlinear_arith)
            requires
                self.step > 0,
                self.max_steps > 0,
        ;
        assert(gain <= cap);
        self.time_bank = self.time_bank + gain;
        self.last_time = Some(now);
    }

    /// Runs one frame at time `now`: banks the elapsed time, then polls
    /// `task` once for every full step in the bank, until the bank holds
    /// less than a step or the task completes. The full steps that are
    /// left when the task completes are taken from the bank without a
    /// poll, so that the bank holds less than a step after every frame.
    /// Once the task has completed nothing is polled and only the time of
    /// the frame is noted. A frame without a poll leaves the task and
    /// what it shares as they are.
    pub fn update<T: Task>(&mut self, now: u64, task: &mut T, shared: &mut T::Shared) -> (report:
        FrameReport<T::Output>)
        requires
            old(self).wf(),
            old(task).inv(old(shared)),
            old(self).finished() == old(task).finished(),
        ensures
            final(self).wf(),
            final(task).inv(final(shared)),
            final(self).finished() == final(task).finished(),
            final(self).step() == old(self).step(),
            final(self).max_steps() == old(self).max_steps(),
            final(self).last_time() == Some(now),
            final(task).polls() == old(task).polls() + report.polls,
            report.polls <= old(self).max_steps(),
            final(self).time_bank() < final(self).step(),
            old(self).finished() ==> final(self).finished(),
            old(self).finished() ==> report.polls == 0 && report.output is None && final(self).time_bank() == old(self).time_bank(),
            report.polls == 0 ==> *final(task) == *old(task) && *final(shared) == *old(shared),
            !old(self).finished() ==> report.polls <= old(self).steps_due(now),
            !old(self).finished() ==> final(self).time_bank() == old(self).leftover(now),
            !old(self).finished() && !final(self).finished() ==> report.polls == old(self).steps_due(now) && final(self).time_bank() == old(self).time_bank() + old(self).frame_gain(now) - report.polls * old(self).step(),
            final(self).finished() && !old(self).finished() ==> report.polls >= 1,
            (report.output is Some) == (final(self).finished() && !old(self).finished()),
            frame_polls(
                (*old(task), *old(shared)),
                (*final(task), *final(shared)),
                report.polls as nat,
                report.output,
            ),
    {
        let ghost mut states: Seq<(T, T::Shared)> = seq![(*task, *shared)];
        if self.finished {
            self.last_time = Some(now);
            proof {
                assert(polled_in_turn(states, None::<T::Output>));
            }
            return FrameReport { polls: 0, output: None };
        }
        proof {
            lemma_frame_bounds(*self, now);
        }
        let ghost start = *self;
        let ghost polls_before = task.polls();
        self.bank_frame(now);
        let ghost banked: nat = self.time_bank as nat;
        let mut polls: u64 = 0;
        let mut output: Option<T::Output> = None;
        while self.time_bank >= self.step && !self.finished
            invariant
                self.step == start.step,
                self.max_steps == start.max_steps,
                self.step > 0,
                self.max_steps > 0,
                self.step * self.max_steps + self.step <= u64::MAX,
                self.last_time == Some(now),
                banked == start.time_bank() + start.frame_gain(now),
                banked < self.step * self.max_steps + self.step,
                self.time_bank + polls * self.step == banked,
                task.inv(shared),
                self.finished == task.finished(),
                task.polls() == polls_before + polls,
                (output is Some) == self.finished,
                self.finished ==> polls >= 1,
                polls == 0 ==> *task == *old(task) && *shared == *old(shared),
                states.len() == polls + 1,
                states[0] == (*old(task), *old(shared)),
                states.last() == (*task, *shared),
                polled_in_turn(states, output),
            decreases self.time_bank + (if self.finished { 0int } else { 1int }),
        {
            proof {
                let step = self.step as int;
                let m = self.max_steps as int;
                let p = polls as int;
                assert((p + 1) * step == p * step + step) by (nonlinear_arith);
                assert(p + 1 <= m) by (nonlinear_arith)
                    requires
                        (p + 1) * step < step * m + step,
                        step > 0,
                ;
                assert(m < u64::MAX) by (nonlinear_arith)
                    requires
                        step * m + step <= u64::MAX,
                        step > 0,
                        m > 0,
                ;
            }
            self.time_bank = self.time_bank - self.step;
            polls = polls + 1;
            let ghost earlier = states;
            match task.poll(shared) {
                Poll::Pending => {
                    proof {
                        states = earlier.push((*task, *shared));
                    }
                },
                Poll::Ready(value) => {
                    output = Some(value);
                    self.finished = true;
                    proof {
                        states = earlier.push((*task, *shared));
                    }
                },
            }
            proof {
                assert forall|i: int| 1 <= i < states.len() implies (#[trigger] states[i]).0.stepped(
                    &states[i - 1].0,
                    &states[i].1,
                    &states[i - 1].1,
                    reported(output, i == states.len() - 1),
                ) by {
                    if i < earlier.len() {
                        assert(states[i] == earlier[i]);
                        assert(states[i - 1] == earlier[i - 1]);
                    } else {
                        assert(states[i - 1] == earlier.last());
                    }
                }
            }
        }
        proof {
            let step = self.step as int;
            let p = polls as int;
            assert(p * step <= banked);
            assert(p <= self.max_steps) by (nonlinear_arith)
                requires
                    p * step <= banked,
                    banked < step * self.max_steps + step,
                    step > 0,
            ;
            lemma_fundamental_div_mod(banked as int, step);
            lemma_mul_is_commutative(step, banked as int / step);
            assert(p <= banked as int / step) by {
                if p > banked as int / step {
                    lemma_mul_inequality(banked as int / step + 1, p, step);
                    lemma_mul_is_distributive_add_other_way(step, banked as int / step, 1);
                }
            }
            if !self.finished {
                assert(self.time_bank < step);
                lemma_fundamental_div_mod_converse(
                    banked as int,
                    step,
                    p,
                    self.time_bank as int,
                );
            }
            let bank = self.time_bank as int;
            lemma_fundamental_div_mod(bank, step);
            lemma_mod_bound(bank, step);
            lemma_mul_is_distributive_add(step, bank / step, p);
            lemma_mul_is_commutative(step, p);
            lemma_fundamental_div_mod_converse(banked as int, step, bank / step + p, bank % step);
            assert(bank % step == start.leftover(now));
        }
        if self.finished {
            self.time_bank = self.time_bank % self.step;
        }
        FrameReport { polls, output }
    }
}

/// Where the bank held less than a step before the frame and exactly `k`
/// steps' worth of time has passed since the latest frame, the frame owes
/// `k` polls, or `max_steps` where `k` is larger, and leaves the bank as it
/// found it.
pub proof fn lemma_whole_steps_elapsed(d: Driver, last: u64, now: u64, k: nat)
    requires
        d.wf(),
        !d.finished(),
        d.last_time() == Some(last),
        now == last + k * d.step(),
    ensures
        d.steps_due(now) == if k <= d.max_steps() {
            k
        } else {
            d.max_steps()
        },
        d.leftover(now) == d.time_bank(),
        d.leftover(now) < d.step(),
{
    let step = d.step() as int;
    let m = d.max_steps() as int;
    let due: int = if k <= m {
        k as int
    } else {
        m
    };
    assert(d.frame_gain(now) == due * step) by {
        if k == 0 {
            assert(k * d.step() == 0);
        } else if k >= m {
            lemma_mul_inequality(m, k as int, step);
            lemma_mul_is_commutative(step, m);
            assert(k * step > 0) by (nonlinear_arith)
                requires
                    k > 0,
                    step > 0,
            ;
        } else {
            lemma_mul_strict_inequality(k as int, m, step);
            lemma_mul_is_commutative(step, m);
            assert(k * step > 0) by (nonlinear_arith)
                requires
                    k > 0,
                    step > 0,
            ;
        }
    }
    lemma_fundamental_div_mod_converse(
        d.time_bank() as int + due * step,
        step,
        due,
        d.time_bank() as int,
    );
}

/// After `n` polls in turn a task built of suspensions still has the
/// number of suspensions that it was made with, and has been polled `n`
/// times more.
proof fn lemma_waiting_polls(states: Seq<(WaitTicks, ())>, output: Option<()>, n: int)
    requires
        polled_in_turn(states, output),
        0 <= n < states.len(),
    ensures
        states[n].0.ticks() == states[0].0.ticks(),
        states[n].0.poll_count() == states[0].0.poll_count() + n,
    decreases n,
{
    if n > 0 {
        lemma_waiting_polls(states, output, n - 1);
        assert(states[n].0.stepped(
            &states[n - 1].0,
            &states[n].1,
            &states[n - 1].1,
            reported(output, n == states.len() - 1),
        ));
    }
}

/// A task built of suspensions in a row takes one poll for each of them
/// and one more to complete, however the polls fall into frames: a frame
/// gives the output exactly where its last poll is the one after the last
/// suspension. So a task of three suspensions is still running after
/// each of its first three polls and is seen to complete by the fourth.
pub proof fn lemma_waiting_task_completes_on_the_poll_after_its_ticks(
    before: WaitTicks,
    after: WaitTicks,
    polls: nat,
    output: Option<()>,
)
    requires
        frame_polls((before, ()), (after, ()), polls, output),
    ensures
        after.ticks() == before.ticks(),
        after.poll_count() == before.poll_count() + polls,
        output is Some <==> polls >= 1 && after.poll_count() == after.ticks() + 1,
{
    let states = choose|states: Seq<(WaitTicks, ())>|
        {
            &&& #[trigger] polled_in_turn(states, output)
            &&& states.len() == polls + 1
            &&& states[0] == (before, ())
            &&& states.last() == (after, ())
        };
    lemma_waiting_polls(states, output, polls as int);
    if polls >= 1 {
        let n = polls as int;
        assert(states[n].0.stepped(
            &states[n - 1].0,
            &states[n].1,
            &states[n - 1].1,
            reported(output, n == states.len() - 1),
        ));
    }
}

/// The polls of a task that awaits a row of suspensions, at whatever
/// depth, are polls in turn of that row.
proof fn lemma_nested_polls(states: Seq<(Nested, ())>, output: Option<()>) -> (rows: Seq<
    (WaitTicks, ()),
>)
    requires
        polled_in_turn(states, output),
    ensures
        polled_in_turn(rows, output),
        rows.len() == states.len(),
        forall|i: int| 0 <= i < states.len() ==> (#[trigger] rows[i]).0 == states[i].0.innermost(),
        forall|i: int| 0 <= i < states.len() ==> (#[trigger] states[i]).0.depth() == states[0].0.depth(),
{
    let rows = Seq::new(states.len(), |i: int| (states[i].0.innermost(), ()));
    assert forall|i: int| 1 <= i < rows.len() implies (#[trigger] rows[i]).0.stepped(
        &rows[i - 1].0,
        &rows[i].1,
        &rows[i - 1].1,
        reported(output, i == rows.len() - 1),
    ) by {
        assert(states[i].0.stepped(
            &states[i - 1].0,
            &states[i].1,
            &states[i - 1].1,
            reported(output, i == states.len() - 1),
        ));
    }
    lemma_same_depth(states, output, states.len() - 1);
    rows
}

/// No poll changes the depth at which the row of suspensions lies.
proof fn lemma_same_depth(states: Seq<(Nested, ())>, output: Option<()>, n: int)
    requires
        polled_in_turn(states, output),
        -1 <= n < states.len(),
    ensures
        forall|i: int| 0 <= i <= n ==> (#[trigger] states[i]).0.depth() == states[0].0.depth(),
    decreases n,
{
    if n > 0 {
        lemma_same_depth(states, output, n - 1);
        assert(states[n].0.stepped(
            &states[n - 1].0,
            &states[n].1,
            &states[n - 1].1,
            reported(output, n == states.len() - 1),
        ));
        assert(states[n - 1].0.depth() == states[0].0.depth());
    }
}

/// A row of suspensions takes the same polls wherever it is awaited: at
/// every depth of tasks around it, a frame gives the output exactly
/// where its last poll is the one after the last suspension, as it does
/// for the row with nothing around it.
pub proof fn lemma_nesting_adds_no_poll(
    before: Nested,
    after: Nested,
    polls: nat,
    output: Option<()>,
)
    requires
        frame_polls((before, ()), (after, ()), polls, output),
    ensures
        after.depth() == before.depth(),
        after.innermost().ticks() == before.innermost().ticks(),
        after.innermost().poll_count() == before.innermost().poll_count() + polls,
        output is Some <==> polls >= 1 && after.innermost().poll_count()
            == after.innermost().ticks() + 1,
        frame_polls((before.innermost(), ()), (after.innermost(), ()), polls, output),
{
    let states = choose|states: Seq<(Nested, ())>|
        {
            &&& #[trigger] polled_in_turn(states, output)
            &&& states.len() == polls + 1
            &&& states[0] == (before, ())
            &&& states.last() == (after, ())
        };
    let rows = lemma_nested_polls(states, output);
    assert(rows[0] == (before.innermost(), ()));
    assert(rows.last() == (after.innermost(), ()));
    assert(states[polls as int].0.depth() == states[0].0.depth());
    lemma_waiting_task_completes_on_the_poll_after_its_ticks(
        before.innermost(),
        after.innermost(),
        polls,
        output,
    );
}

/// Whatever time has passed, a frame leaves less than one step in the bank
/// as long as the task goes on, and never owes more polls than `max_steps`;
/// the first frame owes exactly one.
pub proof fn lemma_frame_bounds(d: Driver, now: u64)
    requires
        d.wf(),
        !d.finished(),
    ensures
        d.leftover(now) < d.step(),
        d.last_time() is Some ==> d.steps_due(now) <= d.max_steps(),
        d.last_time() is None ==> d.steps_due(now) == 1,
        d.time_bank() + d.frame_gain(now) == d.steps_due(now) * d.step() + d.leftover(now),
{
    let step = d.step() as int;
    let m = d.max_steps() as int;
    let banked = (d.time_bank() + d.frame_gain(now)) as int;
    assert(step <= step * m) by (nonlinear_arith)
        requires
            step > 0,
            m > 0,
    ;
    assert(d.frame_gain(now) <= step * m);
    lemma_fundamental_div_mod(banked, step);
    lemma_mod_bound(banked, step);
    lemma_mul_is_commutative(step, banked / step);
    if d.last_time() is None {
        assert(step <= banked < 2 * step);
        assert(banked / step == 1) by (nonlinear_arith)
            requires
                banked == (banked / step) * step + banked % step,
                0 <= banked % step < step,
                step <= banked < 2 * step,
                step > 0,
        ;
    } else {
        assert(banked / step <= m) by (nonlinear_arith)
            requires
                banked == (banked / step) * step + banked % step,
                banked % step >= 0,
                banked < step * m + step,
                step > 0,
        ;
    }
}

} // verus!
