//! The job queue of a fixed group of helper workers.
//!
//! Jobs carry an absolute deadline in nanoseconds and leave the queue in
//! deadline order.  The workers themselves (threads, a lock around this
//! queue, a condition to sleep on) belong to the caller: they ask
//! [`ScheduledThreadPool::next_job`] what to do, and report back through
//! [`ScheduledThreadPool::run_job`] after a fixed-rate job ran.
use vstd::prelude::*;

verus! {

/// What a job does when it is run.
pub enum JobKind<O, R> {
    /// Runs once.
    Once(O),
    /// Runs every `rate` nanoseconds, counted from the previous deadline.
    FixedRate { f: R, rate: u64 },
}

/// A job with the time at which it becomes due.
pub struct Job<O, R> {
    pub kind: JobKind<O, R>,
    /// Absolute deadline, in nanoseconds since the clock's epoch.
    pub time: u64,
}

/// What a worker does next.
pub enum Next<O, R> {
    /// The pool is shutting down and nothing is left: the worker exits.
    Exit,
    /// Nothing is queued: sleep until woken.
    Wait,
    /// The earliest job is due after this many nanoseconds: sleep at most that long.
    WaitTimeout(u64),
    /// Run this job now.
    Run(Job<O, R>),
}

/// Why a [`ScheduledThreadPool`] could not be made.
#[derive(Clone, Copy, Debug, PartialEq, Eq)]
pub enum SizeError {
    /// A pool needs at least one worker.
    ZeroSize,
}

impl SizeError {
    /// A short description of the error.
    pub fn description(&self) -> (r: String)
        ensures
            r@ == "size must be positive"@,
    {
        String::from_str("size must be positive")
    }
}

/// `now + delay`, held at the largest time.
pub open spec fn deadline(now: u64, delay: u64) -> u64 {
    if now as int + delay as int > u64::MAX as int {
        u64::MAX
    } else {
        (now + delay) as u64
    }
}

/// The deadlines of `s` never decrease from front to back.
pub open spec fn sorted_by_time<O, R>(s: Seq<Job<O, R>>) -> bool {
    forall|a: int, b: int| 0 <= a < b < s.len() ==> s[a].time <= s[b].time
}

/// `after` is `before` with `job` placed behind every job due no later than it
/// and in front of every job due later.
pub open spec fn inserted<O, R>(before: Seq<Job<O, R>>, after: Seq<Job<O, R>>, job: Job<O, R>) -> bool {
    exists|i: int|
        0 <= i <= before.len() && after == before.insert(i, job) && (forall|k: int|
            0 <= k < i ==> before[k].time <= job.time) && (forall|k: int|
            i <= k < before.len() ==> before[k].time > job.time)
}

/// Reads the clock.
///
/// Relies on `time::precise_time_ns`: a high-resolution counter in
/// nanoseconds since an unspecified epoch.  Nothing is promised of the value.
#[verifier::external_body]
pub(crate) fn now_ns() -> (r: u64) {
    time::precise_time_ns()
}

fn add_deadline(now: u64, delay: u64) -> (r: u64)
    ensures
        r == deadline(now, delay),
{
    if now > u64::MAX - delay {
        u64::MAX
    } else {
        now + delay
    }
}

/// The queue and shutdown flag shared by the workers of a scheduled pool.
pub struct ScheduledThreadPool<O, R> {
    queue: Vec<Job<O, R>>,
    shutdown: bool,
    size: usize,
}

impl<O, R> ScheduledThreadPool<O, R> {
    /// The queued jobs, earliest deadline first.
    pub closed spec fn jobs(&self) -> Seq<Job<O, R>> {
        self.queue@
    }

    /// Whether the pool has been told to shut down.
    pub closed spec fn is_shut_down(&self) -> bool {
        self.shutdown
    }

    /// The number of workers the pool was made for.
    pub closed spec fn workers(&self) -> nat {
        self.size as nat
    }

    /// The queue is in deadline order and there is at least one worker.
    pub closed spec fn wf(&self) -> bool {
        sorted_by_time(self.queue@) && self.size > 0
    }

    /// Makes the queue of a pool with `size` workers.
    ///
    /// A pool needs at least one worker: `size == 0` is refused.
    pub fn new(size: usize) -> (r: Result<Self, SizeError>)
        ensures
            size == 0 <==> r is Err,
            size == 0 ==> r == Err::<Self, SizeError>(SizeError::ZeroSize),
            r matches Ok(p) ==> p.wf() && p.jobs() == Seq::<Job<O, R>>::empty() && !p.is_shut_down()
                && p.workers() == size,
    {
        if size == 0 {
            return Err(SizeError::ZeroSize);
        }
        Ok(ScheduledThreadPool { queue: Vec::new(), shutdown: false, size })
    }

    /// The number of workers the pool was made for.
    pub fn size(&self) -> (r: usize)
        ensures
            r == self.workers(),
    {
        self.size
    }

    /// The number of queued jobs.
    pub fn len(&self) -> (r: usize)
        ensures
            r == self.jobs().len(),
    {
        self.queue.len()
    }

    /// Whether the pool has been told to shut down.
    pub fn shutting_down(&self) -> (r: bool)
        ensures
            r == self.is_shut_down(),
    {
        self.shutdown
    }

    /// Queues `job`.
    ///
    /// Once the pool is shutting down the job is dropped.  Returns whether the
    /// workers must be woken: the queue was empty, or the new job is due
    /// strictly before the one that was first.
    pub fn schedule(&mut self, job: Job<O, R>) -> (notify: bool)
        requires
            old(self).wf(),
        ensures
            final(self).wf(),
            final(self).is_shut_down() == old(self).is_shut_down(),
            final(self).workers() == old(self).workers(),
            final(self).jobs().len() == old(self).jobs().len() + if old(self).is_shut_down() {
                0int
            } else {
                1int
            },
            old(self).is_shut_down() ==> final(self).jobs() == old(self).jobs() && !notify,
            !old(self).is_shut_down() ==> inserted(old(self).jobs(), final(self).jobs(), job),
            !old(self).is_shut_down() ==> notify == (old(self).jobs().len() == 0
                || old(self).jobs()[0].time > job.time),
    {
        if self.shutdown {
            return false;
        }
        let notify = self.queue.len() == 0 || self.queue[0].time > job.time;
        let mut i: usize = 0;
        while i < self.queue.len() && self.queue[i].time <= job.time
            invariant
                0 <= i <= self.queue@.len(),
                self.queue@ == old(self).queue@,
                self.shutdown == old(self).shutdown,
                self.size == old(self).size,
                forall|k: int| 0 <= k < i ==> self.queue@[k].time <= job.time,
            decreases self.queue@.len() - i,
        {
            i = i + 1;
        }
        let ghost before = self.queue@;
        proof {
            assert forall|k: int| i <= k < before.len() implies before[k].time > job.time by {
                assert(before[i as int].time > job.time);
                assert(before[i as int].time <= before[k].time);
            }
        }
        self.queue.insert(i, job);
        proof {
            let after = self.queue@;
            assert forall|a: int, b: int| 0 <= a < b < after.len() implies after[a].time
                <= after[b].time by {
                if b < i {
                } else if b == i {
                    assert(after[a] == before[a]);
                } else if a < i {
                    assert(after[b] == before[b - 1]);
                } else if a == i {
                    assert(after[b] == before[b - 1]);
                } else {
                    assert(after[a] == before[a - 1]);
                    assert(after[b] == before[b - 1]);
                }
            }
            assert(inserted(before, after, after[i as int]));
        }
        notify
    }

    /// Decides what a worker does next at time `now`.
    ///
    /// The earliest job leaves the queue once it is due; until then the
    /// worker sleeps, and it exits only when the pool is shutting down and the
    /// queue is empty.
    pub fn next_job(&mut self, now: u64) -> (next: Next<O, R>)
        requires
            old(self).wf(),
        ensures
            final(self).wf(),
            final(self).is_shut_down() == old(self).is_shut_down(),
            final(self).workers() == old(self).workers(),
            old(self).jobs().len() == 0 ==> final(self).jobs() == old(self).jobs() && (if old(
                self,
            ).is_shut_down() {
                next is Exit
            } else {
                next is Wait
            }),
            old(self).jobs().len() > 0 && old(self).jobs()[0].time > now ==> final(self).jobs()
                == old(self).jobs() && next == Next::<O, R>::WaitTimeout(
                (old(self).jobs()[0].time - now) as u64,
            ),
            old(self).jobs().len() > 0 && old(self).jobs()[0].time <= now ==> next
                == Next::<O, R>::Run(old(self).jobs()[0]) && final(self).jobs() == old(
                self,
            ).jobs().drop_first(),
            next matches Next::Run(j) ==> j.time <= now && forall|k: int|
                0 <= k < old(self).jobs().len() ==> j.time <= #[trigger] old(self).jobs()[k].time,
    {
        if self.queue.len() == 0 {
            if self.shutdown {
                return Next::Exit;
            } else {
                return Next::Wait;
            }
        }
        let t = self.queue[0].time;
        if t > now {
            return Next::WaitTimeout(t - now);
        }
        let job = self.queue.remove(0);
        proof {
            assert(self.queue@ =~= old(self).queue@.drop_first());
        }
        Next::Run(job)
    }

    /// Queues the next run of a fixed-rate job that just ran.
    ///
    /// The next deadline is the previous one plus `rate`, so a slow job does
    /// not push later runs back.  Nothing is queued once the pool is shutting
    /// down.  Returns whether the workers must be woken.
    pub fn run_job(&mut self, f: R, rate: u64, previous: u64) -> (notify: bool)
        requires
            old(self).wf(),
        ensures
            final(self).wf(),
            final(self).is_shut_down() == old(self).is_shut_down(),
            final(self).workers() == old(self).workers(),
            final(self).jobs().len() == old(self).jobs().len() + if old(self).is_shut_down() {
                0int
            } else {
                1int
            },
            old(self).is_shut_down() ==> final(self).jobs() == old(self).jobs() && !notify,
            !old(self).is_shut_down() ==> inserted(
                old(self).jobs(),
                final(self).jobs(),
                Job { kind: JobKind::FixedRate { f, rate }, time: deadline(previous, rate) },
            ),
            !old(self).is_shut_down() ==> notify == (old(self).jobs().len() == 0 || old(self).jobs()[0].time
                > deadline(previous, rate)),
    {
        let time = add_deadline(previous, rate);
        self.schedule(Job { kind: JobKind::FixedRate { f, rate }, time })
    }

    /// Queues `job` to run `delay` nanoseconds after `now`.
    pub fn run_after_at(&mut self, now: u64, delay: u64, job: O) -> (notify: bool)
        requires
            old(self).wf(),
        ensures
            final(self).wf(),
            final(self).is_shut_down() == old(self).is_shut_down(),
            final(self).workers() == old(self).workers(),
            final(self).jobs().len() == old(self).jobs().len() + if old(self).is_shut_down() {
                0int
            } else {
                1int
            },
            old(self).is_shut_down() ==> final(self).jobs() == old(self).jobs() && !notify,
            !old(self).is_shut_down() ==> inserted(
                old(self).jobs(),
                final(self).jobs(),
                Job { kind: JobKind::Once(job), time: deadline(now, delay) },
            ),
            !old(self).is_shut_down() ==> notify == (old(self).jobs().len() == 0 || old(self).jobs()[0].time
                > deadline(now, delay)),
    {
        let time = add_deadline(now, delay);
        self.schedule(Job { kind: JobKind::Once(job), time })
    }

    /// Queues `f` to run every `rate` nanoseconds, the first time `rate`
    /// nanoseconds after `now`.
    pub fn run_at_fixed_rate_at(&mut self, now: u64, rate: u64, f: R) -> (notify: bool)
        requires
            old(self).wf(),
        ensures
            final(self).wf(),
            final(self).is_shut_down() == old(self).is_shut_down(),
            final(self).workers() == old(self).workers(),
            final(self).jobs().len() == old(self).jobs().len() + if old(self).is_shut_down() {
                0int
            } else {
                1int
            },
            old(self).is_shut_down() ==> final(self).jobs() == old(self).jobs() && !notify,
            !old(self).is_shut_down() ==> inserted(
                old(self).jobs(),
                final(self).jobs(),
                Job { kind: JobKind::FixedRate { f, rate }, time: deadline(now, rate) },
            ),
            !old(self).is_shut_down() ==> notify == (old(self).jobs().len() == 0 || old(self).jobs()[0].time
                > deadline(now, rate)),
    {
        let time = add_deadline(now, rate);
        self.schedule(Job { kind: JobKind::FixedRate { f, rate }, time })
    }

    /// Queues `job` to run as soon as a worker is free.
    pub fn run(&mut self, job: O) -> (notify: bool)
        requires
            old(self).wf(),
        ensures
            final(self).wf(),
            final(self).is_shut_down() == old(self).is_shut_down(),
            final(self).workers() == old(self).workers(),
            final(self).jobs().len() == old(self).jobs().len() + if old(self).is_shut_down() {
                0int
            } else {
                1int
            },
            old(self).is_shut_down() ==> final(self).jobs() == old(self).jobs() && !notify,
            !old(self).is_shut_down() ==> exists|now: u64|
                inserted(
                    old(self).jobs(),
                    final(self).jobs(),
                    Job { kind: JobKind::Once(job), time: #[trigger] deadline(now, 0) },
                ) && notify == (old(self).jobs().len() == 0 || old(self).jobs()[0].time > deadline(now, 0)),
    {
        self.run_after(0, job)
    }

    /// Queues `job` to run `delay` nanoseconds from now.
    pub fn run_after(&mut self, delay: u64, job: O) -> (notify: bool)
        requires
            old(self).wf(),
        ensures
            final(self).wf(),
            final(self).is_shut_down() == old(self).is_shut_down(),
            final(self).workers() == old(self).workers(),
            final(self).jobs().len() == old(self).jobs().len() + if old(self).is_shut_down() {
                0int
            } else {
                1int
            },
            old(self).is_shut_down() ==> final(self).jobs() == old(self).jobs() && !notify,
            !old(self).is_shut_down() ==> exists|now: u64|
                inserted(
                    old(self).jobs(),
                    final(self).jobs(),
                    Job { kind: JobKind::Once(job), time: #[trigger] deadline(now, delay) },
                ) && notify == (old(self).jobs().len() == 0 || old(self).jobs()[0].time > deadline(now, delay)),
    {
        let now = now_ns();
        self.run_after_at(now, delay, job)
    }

    /// Queues `f` to run every `rate` nanoseconds, the first time `rate`
    /// nanoseconds from now.
    pub fn run_at_fixed_rate(&mut self, rate: u64, f: R) -> (notify: bool)
        requires
            old(self).wf(),
        ensures
            final(self).wf(),
            final(self).is_shut_down() == old(self).is_shut_down(),
            final(self).workers() == old(self).workers(),
            final(self).jobs().len() == old(self).jobs().len() + if old(self).is_shut_down() {
                0int
            } else {
                1int
            },
            old(self).is_shut_down() ==> final(self).jobs() == old(self).jobs() && !notify,
            !old(self).is_shut_down() ==> exists|now: u64|
                inserted(
                    old(self).jobs(),
                    final(self).jobs(),
                    Job { kind: JobKind::FixedRate { f, rate }, time: #[trigger] deadline(now, rate) },
                ) && notify == (old(self).jobs().len() == 0 || old(self).jobs()[0].time > deadline(now, rate)),
    {
        let now = now_ns();
        self.run_at_fixed_rate_at(now, rate, f)
    }

    /// Starts an orderly shutdown: queued jobs still run, then the workers exit.
    pub fn shutdown(&mut self)
        requires
            old(self).wf(),
        ensures
            final(self).wf(),
            final(self).is_shut_down(),
            final(self).jobs() == old(self).jobs(),
            final(self).workers() == old(self).workers(),
    {
        self.shutdown = true;
    }

    /// Shuts down at once, dropping every queued job.  Jobs already running
    /// are not affected.
    pub fn shutdown_now(&mut self)
        requires
            old(self).wf(),
        ensures
            final(self).wf(),
            final(self).is_shut_down(),
            final(self).jobs() == Seq::<Job<O, R>>::empty(),
            final(self).workers() == old(self).workers(),
    {
        self.queue.clear();
        self.shutdown = true;
    }
}

/// Jobs leave a pool's queue in deadline order: every job in the queue is due
/// no later than each job behind it.
pub proof fn jobs_leave_in_deadline_order<O, R>(p: &ScheduledThreadPool<O, R>)
    requires
        p.wf(),
    ensures
        forall|a: int, b: int|
            0 <= a < b < p.jobs().len() ==> #[trigger] p.jobs()[a].time <= #[trigger] p.jobs()[b].time,
{
}

} // verus!
