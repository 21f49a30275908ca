//! The pool: its ready queue, its live-resource count, and the checkout and
//! return protocol.
use std::collections::VecDeque;
use std::marker::PhantomData;
use vstd::prelude::*;

use crate::config::{Config, ConfigError};
use crate::task::{deadline, inserted, now_ns, Job, JobKind, Next, ScheduledThreadPool};

verus! {

/// Database-specific functionality, supplied by the user of the pool.
pub trait PoolManager<C, E> {
    /// Attempts to create a new connection.
    fn connect(&self) -> Result<C, E>;

    /// Determines if the connection is still connected to the database.
    ///
    /// A standard implementation would check if a simple query like
    /// `SELECT 1` succeeds.
    fn is_valid(&self, conn: &mut C) -> Result<(), E>;

    /// *Quickly* determines if the connection is no longer usable.
    ///
    /// This is called every time a connection is returned to the pool, so it
    /// should not block.  A connection for which it returns `true` is
    /// discarded and replaced.
    fn has_broken(&self, conn: &mut C) -> bool;
}

/// Receives the errors that cannot be returned to a caller: a failed
/// background connect, a failed validation on checkout.
pub trait ErrorHandler<E> {
    /// Handles an error.
    fn handle_error(&self, error: E);
}

impl<E, H: ErrorHandler<E> + ?Sized> ErrorHandler<E> for Box<H> {
    fn handle_error(&self, error: E) {
        (**self).handle_error(error)
    }
}

/// An [`ErrorHandler`] which does nothing.
#[derive(Clone, Copy, Debug)]
pub struct NoopErrorHandler;

impl<E> ErrorHandler<E> for NoopErrorHandler {
    fn handle_error(&self, _error: E) {
    }
}

/// The mutable state of a pool: the idle resources, the number of live
/// resources, and the creations in flight.
///
/// The pool's first creations are reserved: they count as live from the
/// start.  A resource that is destroyed (broken on return, or failing
/// validation) stops being live at once, and its replacement counts as live
/// only once it has been created.  So a live resource is idle in the ready
/// queue, checked out, or a reserved creation; live resources and pending
/// replacements together never exceed the pool's size.
pub struct PoolInternals<C> {
    conns: VecDeque<C>,
    num_conns: u32,
    reserved: u32,
    replacing: u32,
    pool_size: u32,
}

impl<C> PoolInternals<C> {
    /// The idle resources, in the order they are handed out.
    pub closed spec fn ready(&self) -> Seq<C> {
        self.conns@
    }

    /// The number of live resources.
    pub closed spec fn live(&self) -> nat {
        self.num_conns as nat
    }

    /// The number of first creations still in flight; they count as live.
    pub closed spec fn reserving(&self) -> nat {
        self.reserved as nat
    }

    /// The number of replacements in flight; they are not live yet.
    pub closed spec fn replacing(&self) -> nat {
        self.replacing as nat
    }

    /// The number of creations in flight.
    pub open spec fn creating(&self) -> nat {
        self.reserving() + self.replacing()
    }

    /// The number of resources the pool keeps alive.
    pub closed spec fn size(&self) -> nat {
        self.pool_size as nat
    }

    /// The number of live resources held by borrowers.
    pub open spec fn checked_out(&self) -> int {
        self.live() - self.ready().len() - self.reserving()
    }

    /// Every live resource is ready, checked out or a reserved creation, and
    /// the live resources and pending replacements together do not exceed
    /// the pool's size.
    pub open spec fn wf(&self) -> bool {
        &&& self.ready().len() + self.reserving() <= self.live()
        &&& self.live() + self.replacing() <= self.size()
        &&& self.size() > 0
    }

    /// `after` follows from `before` by a checkout that yielded `r`: the
    /// front resource, if there was one.
    pub open spec fn took(before: Self, after: Self, r: Option<C>) -> bool {
        &&& after.live() == before.live()
        &&& after.reserving() == before.reserving()
        &&& after.replacing() == before.replacing()
        &&& after.size() == before.size()
        &&& if before.ready().len() == 0 {
            r is None && after.ready() == before.ready()
        } else {
            r == Some(before.ready()[0]) && after.ready() == before.ready().drop_first()
        }
    }

    /// `after` follows from `before` when a borrower gives back `conn`: a
    /// working resource joins the back of the ready queue; a broken one is
    /// destroyed, so one resource fewer is live, and a replacement goes into
    /// creation.
    pub open spec fn returned(before: Self, after: Self, conn: C, broken: bool) -> bool {
        &&& after.size() == before.size()
        &&& after.reserving() == before.reserving()
        &&& if broken {
            &&& after.ready() == before.ready()
            &&& after.live() == before.live() - 1
            &&& after.replacing() == before.replacing() + 1
        } else {
            &&& after.ready() == before.ready().push(conn)
            &&& after.live() == before.live()
            &&& after.replacing() == before.replacing()
        }
    }

    /// `after` follows from `before` when a creation finished, whatever the
    /// manager answered: a new resource joined the back of the ready queue,
    /// or nothing was added.  A reserved creation is settled first; its
    /// success keeps the live count and its failure lowers it.  A
    /// replacement's success raises the live count and its failure keeps it.
    pub open spec fn creation_settled(before: Self, after: Self) -> bool {
        let first = before.reserving() > 0;
        &&& after.size() == before.size()
        &&& first ==> after.reserving() == before.reserving() - 1 && after.replacing()
            == before.replacing()
        &&& !first ==> after.reserving() == 0 && after.replacing() == before.replacing() - 1
        &&& {
            ||| (exists|c: C| #[trigger] before.ready().push(c) == after.ready())
                && after.live() == before.live() + if first {
                0int
            } else {
                1int
            }
            ||| after.ready() == before.ready() && after.live() == before.live() - if first {
                1int
            } else {
                0int
            }
        }
    }

    /// A pool of `pool_size` resources, all of them reserved and in creation.
    pub fn new(pool_size: u32) -> (r: Self)
        requires
            pool_size > 0,
        ensures
            r.wf(),
            r.ready() == Seq::<C>::empty(),
            r.live() == pool_size,
            r.reserving() == pool_size,
            r.replacing() == 0,
            r.size() == pool_size,
    {
        PoolInternals {
            conns: VecDeque::new(),
            num_conns: pool_size,
            reserved: pool_size,
            replacing: 0,
            pool_size,
        }
    }

    /// The number of idle resources.
    pub fn idle(&self) -> (r: usize)
        ensures
            r == self.ready().len(),
    {
        self.conns.len()
    }

    /// The number of live resources.
    pub fn live_count(&self) -> (r: u32)
        ensures
            r == self.live(),
    {
        self.num_conns
    }

    /// The number of resources in creation.
    pub fn in_creation(&self) -> (r: u32)
        requires
            self.wf(),
        ensures
            r == self.creating(),
    {
        self.reserved + self.replacing
    }

    /// The number of resources held by borrowers.
    pub fn borrowed(&self) -> (r: u32)
        requires
            self.wf(),
        ensures
            r == self.checked_out(),
    {
        self.num_conns - self.reserved - self.conns.len() as u32
    }

    /// Takes the front idle resource, if there is one.
    pub fn take_ready(&mut self) -> (r: Option<C>)
        requires
            old(self).wf(),
        ensures
            final(self).wf(),
            Self::took(*old(self), *final(self), r),
    {
        let r = self.conns.pop_front();
        proof {
            if old(self).conns@.len() > 0 {
                assert(self.conns@ =~= old(self).conns@.drop_first());
            }
        }
        r
    }

    /// A checked-out resource turned out unusable and was destroyed: one
    /// resource fewer is live, and a replacement goes into creation.
    pub fn replace_checked_out(&mut self)
        requires
            old(self).wf(),
            old(self).checked_out() > 0,
        ensures
            final(self).wf(),
            final(self).ready() == old(self).ready(),
            final(self).live() == old(self).live() - 1,
            final(self).reserving() == old(self).reserving(),
            final(self).replacing() == old(self).replacing() + 1,
            final(self).size() == old(self).size(),
    {
        self.num_conns = self.num_conns - 1;
        self.replacing = self.replacing + 1;
    }

    /// A borrower gives `conn` back; `broken` is the manager's verdict on it.
    ///
    /// Returns whether one waiter is to be woken: exactly when the resource
    /// went back into the ready queue.
    pub fn return_conn(&mut self, conn: C, broken: bool) -> (notify: bool)
        requires
            old(self).wf(),
            old(self).checked_out() > 0,
        ensures
            final(self).wf(),
            Self::returned(*old(self), *final(self), conn, broken),
            notify == !broken,
    {
        if broken {
            self.replace_checked_out();
            false
        } else {
            self.conns.push_back(conn);
            true
        }
    }

    /// A checked-out resource was validated with `verdict`.
    ///
    /// On success the borrower keeps `conn` and nothing changes.  On failure
    /// the resource is destroyed (one resource fewer is live), a replacement
    /// goes into creation, and the error is handed back to be reported.
    pub fn validated<E>(&mut self, conn: C, verdict: Result<(), E>) -> (r: Result<C, E>)
        requires
            old(self).wf(),
            old(self).checked_out() > 0,
        ensures
            final(self).wf(),
            final(self).ready() == old(self).ready(),
            final(self).reserving() == old(self).reserving(),
            final(self).size() == old(self).size(),
            verdict is Ok ==> r == Ok::<C, E>(conn),
            verdict is Ok ==> final(self).live() == old(self).live(),
            verdict is Ok ==> final(self).replacing() == old(self).replacing(),
            verdict matches Err(e) ==> r == Err::<C, E>(e),
            verdict is Err ==> final(self).live() == old(self).live() - 1,
            verdict is Err ==> final(self).replacing() == old(self).replacing() + 1,
    {
        match verdict {
            Ok(()) => Ok(conn),
            Err(e) => {
                self.replace_checked_out();
                Err(e)
            },
        }
    }

    /// A creation finished with `r`.
    ///
    /// Creations are interchangeable: one that finishes settles a reserved
    /// first creation while any is left, and a replacement otherwise.  A new
    /// resource joins the back of the ready queue and `None` is returned: one
    /// waiter is to be woken.  A reserved creation was already live, so its
    /// failure lowers the live count and its success keeps it; a replacement
    /// becomes live only by succeeding.  The error is handed back to be
    /// reported.
    pub fn finish_creation<E>(&mut self, r: Result<C, E>) -> (err: Option<E>)
        requires
            old(self).wf(),
            old(self).creating() > 0,
        ensures
            final(self).wf(),
            final(self).creating() == old(self).creating() - 1,
            final(self).size() == old(self).size(),
            old(self).reserving() > 0 ==> final(self).reserving() == old(self).reserving() - 1,
            old(self).reserving() == 0 ==> final(self).replacing() == old(self).replacing() - 1,
            match r {
                Ok(c) => err is None && final(self).ready() == old(self).ready().push(c)
                    && final(self).live() == old(self).live() + if old(self).reserving() > 0 {
                    0int
                } else {
                    1int
                },
                Err(e) => err == Some(e) && final(self).ready() == old(self).ready()
                    && final(self).live() == old(self).live() - if old(self).reserving() > 0 {
                    1int
                } else {
                    0int
                },
            },
    {
        let first = self.reserved > 0;
        if first {
            self.reserved = self.reserved - 1;
        } else {
            self.replacing = self.replacing - 1;
        }
        match r {
            Ok(c) => {
                self.conns.push_back(c);
                if !first {
                    self.num_conns = self.num_conns + 1;
                }
                None
            },
            Err(e) => {
                if first {
                    self.num_conns = self.num_conns - 1;
                }
                Some(e)
            },
        }
    }
}

/// A connection checked out of a [`Pool`].  Give it back with
/// [`Pool::put_back`].
pub struct PooledConnection<C> {
    conn: C,
}

impl<C> PooledConnection<C> {
    /// The connection held.
    pub closed spec fn resource(&self) -> C {
        self.conn
    }

    /// The connection.
    pub fn get_ref(&self) -> (r: &C)
        ensures
            *r == self.resource(),
    {
        &self.conn
    }

    /// The connection, for use that changes it.
    pub fn get_mut(&mut self) -> (r: &mut C)
        ensures
            *r == old(self).resource(),
            final(self).resource() == *final(r),
    {
        &mut self.conn
    }
}

/// A generic connection pool.
///
/// Creation of resources is queued as helper jobs; [`Pool::run_helper_job`]
/// runs one of them, as a helper worker would.  A checkout that finds no idle
/// resource fails at once: a caller that shares the pool between threads
/// waits for a return or a creation and tries again.
pub struct Pool<C, E, M, H> {
    config: Config,
    manager: M,
    error_handler: H,
    internals: PoolInternals<C>,
    helpers: ScheduledThreadPool<(), ()>,
    error: PhantomData<E>,
}

impl<C, E, M: PoolManager<C, E>, H: ErrorHandler<E>> Pool<C, E, M, H> {
    /// The settings the pool was made with.
    pub closed spec fn settings(&self) -> Config {
        self.config
    }

    /// The pool's bookkeeping.
    pub closed spec fn state(&self) -> PoolInternals<C> {
        self.internals
    }

    /// The creation jobs waiting for a helper.
    pub closed spec fn creation_jobs(&self) -> Seq<Job<(), ()>> {
        self.helpers.jobs()
    }

    /// The bookkeeping agrees with the settings, and every resource in
    /// creation has its job in the helpers' queue.
    pub closed spec fn wf(&self) -> bool {
        &&& self.config.is_valid()
        &&& self.internals.wf()
        &&& self.internals.size() == self.config.pool_size
        &&& self.helpers.wf()
        &&& !self.helpers.is_shut_down()
        &&& self.helpers.workers() == self.config.helper_tasks
        &&& self.internals.creating() == self.helpers.jobs().len()
    }

    /// Creates a new connection pool.
    ///
    /// Returns an `Err` value only if `config` is invalid.  Otherwise all
    /// `pool_size` resources are counted live at once and go into creation;
    /// none is ready yet.
    pub fn new(config: Config, manager: M, error_handler: H) -> (r: Result<Self, ConfigError>)
        ensures
            r is Ok <==> config.is_valid(),
            config.pool_size == 0 ==> r == Err::<Self, ConfigError>(ConfigError::ZeroPoolSize),
            config.pool_size > 0 && config.helper_tasks == 0 ==> r == Err::<Self, ConfigError>(
                ConfigError::ZeroHelperTasks,
            ),
            r matches Ok(p) ==> {
                &&& p.wf()
                &&& p.settings() == config
                &&& p.state().ready() == Seq::<C>::empty()
                &&& p.state().live() == config.pool_size
                &&& p.state().creating() == config.pool_size
            },
    {
        match config.validate() {
            Err(e) => {
                return Err(e);
            },
            Ok(()) => {},
        }
        let internals = PoolInternals::new(config.pool_size);
        let mut helpers = match ScheduledThreadPool::new(config.helper_tasks as usize) {
            Ok(h) => h,
            Err(_) => {
                return Err(ConfigError::ZeroHelperTasks);
            },
        };
        let mut i: u32 = 0;
        while i < config.pool_size
            invariant
                0 <= i <= config.pool_size,
                helpers.wf(),
                !helpers.is_shut_down(),
                helpers.workers() == config.helper_tasks,
                helpers.jobs().len() == i,
            decreases config.pool_size - i,
        {
            add_connection(&mut helpers);
            i = i + 1;
        }
        Ok(Pool { config, manager, error_handler, internals, helpers, error: PhantomData })
    }

    /// The number of idle resources.
    pub fn idle(&self) -> (r: usize)
        ensures
            r == self.state().ready().len(),
    {
        self.internals.idle()
    }

    /// The number of live resources.
    pub fn live_count(&self) -> (r: u32)
        ensures
            r == self.state().live(),
    {
        self.internals.live_count()
    }

    /// The number of resources in creation.
    pub fn in_creation(&self) -> (r: u32)
        requires
            self.wf(),
        ensures
            r == self.state().creating(),
    {
        self.internals.in_creation()
    }

    /// The number of resources held by borrowers.
    pub fn borrowed(&self) -> (r: u32)
        requires
            self.wf(),
        ensures
            r == self.state().checked_out(),
    {
        self.internals.borrowed()
    }

    /// Retrieves a connection from the pool.
    ///
    /// Idle resources are taken from the front.  With `test_on_check_out`
    /// each is validated first; one that fails is reported and destroyed (one
    /// resource fewer is live), its replacement goes into creation, and the
    /// next is tried.  `Err(())` means no idle resource was left.
    pub fn get(&mut self) -> (r: Result<PooledConnection<C>, ()>)
        requires
            old(self).wf(),
        ensures
            final(self).wf(),
            final(self).settings() == old(self).settings(),
            final(self).state().reserving() == old(self).state().reserving(),
            old(self).state().ready().len() == 0 ==> r is Err && final(self).state().ready() == old(
                self,
            ).state().ready() && final(self).state().replacing() == old(self).state().replacing()
                && final(self).state().live() == old(self).state().live(),
            !old(self).settings().test_on_check_out ==> (r is Ok <==> old(self).state().ready().len()
                > 0),
            !old(self).settings().test_on_check_out && old(self).state().ready().len() > 0 ==> (r
                matches Ok(h) && h.resource() == old(self).state().ready()[0] && PoolInternals::took(
                old(self).state(), final(self).state(), Some(h.resource()))),
            r is Ok ==> {
                let k = final(self).state().replacing() - old(self).state().replacing();
                &&& 0 <= k < old(self).state().ready().len()
                &&& final(self).state().ready() == old(self).state().ready().subrange(
                    k + 1,
                    old(self).state().ready().len() as int,
                )
                &&& final(self).state().live() == old(self).state().live() - k
            },
            r is Err ==> {
                let k = old(self).state().ready().len();
                &&& final(self).state().ready().len() == 0
                &&& final(self).state().replacing() == old(self).state().replacing() + k
                &&& final(self).state().live() == old(self).state().live() - k
            },
            r is Ok ==> final(self).state().checked_out() == old(self).state().checked_out() + 1,
            r is Err ==> final(self).state().checked_out() == old(self).state().checked_out(),
    {
        let ghost q = self.internals.ready();
        let ghost k: int = 0;
        loop
            invariant
                self.wf(),
                self.config == old(self).config,
                self.internals.live() == old(self).internals.live() - k,
                0 <= k <= q.len(),
                q == old(self).internals.ready(),
                self.internals.ready() == q.subrange(k, q.len() as int),
                self.internals.reserving() == old(self).internals.reserving(),
                self.internals.replacing() == old(self).internals.replacing() + k,
                self.internals.checked_out() == old(self).internals.checked_out(),
                !self.config.test_on_check_out ==> k == 0,
                k == 0 ==> self.internals == old(self).internals,
            decreases self.internals.ready().len(),
        {
            match self.internals.take_ready() {
                None => {
                    return Err(());
                },
                Some(conn) => {
                    let mut conn = conn;
                    if self.config.test_on_check_out {
                        let verdict = self.manager.is_valid(&mut conn);
                        match self.validated(conn, verdict) {
                            Ok(h) => {
                                assert(self.internals.ready() =~= q.subrange(
                                    k + 1,
                                    q.len() as int,
                                ));
                                return Ok(h);
                            },
                            Err(e) => {
                                self.error_handler.handle_error(e);
                                proof {
                                    k = k + 1;
                                    assert(self.internals.ready() =~= q.subrange(
                                        k,
                                        q.len() as int,
                                    ));
                                }
                            },
                        }
                    } else {
                        return Ok(PooledConnection { conn });
                    }
                },
            }
        }
    }

    /// A checked-out resource was validated with `verdict`.
    ///
    /// On success a handle on `conn` is returned and nothing else changes.
    /// On failure the resource is destroyed (one resource fewer is live), its
    /// replacement is queued on the helpers, and the error is handed back to
    /// be reported.
    pub fn validated(&mut self, conn: C, verdict: Result<(), E>) -> (r: Result<PooledConnection<C>, E>)
        requires
            old(self).wf(),
            old(self).state().checked_out() > 0,
        ensures
            final(self).wf(),
            final(self).settings() == old(self).settings(),
            final(self).state().ready() == old(self).state().ready(),
            final(self).state().reserving() == old(self).state().reserving(),
            verdict is Ok ==> (r matches Ok(h) && h.resource() == conn),
            verdict is Ok ==> final(self).state().live() == old(self).state().live(),
            verdict is Ok ==> final(self).state().replacing() == old(self).state().replacing(),
            verdict is Ok ==> final(self).creation_jobs() == old(self).creation_jobs(),
            verdict matches Err(e) ==> r == Err::<PooledConnection<C>, E>(e),
            verdict is Err ==> final(self).state().live() == old(self).state().live() - 1,
            verdict is Err ==> final(self).state().replacing() == old(self).state().replacing() + 1,
            verdict is Err ==> exists|now: u64|
                inserted(
                    old(self).creation_jobs(),
                    final(self).creation_jobs(),
                    Job { kind: JobKind::Once(()), time: #[trigger] deadline(now, 0) },
                ),
    {
        match self.internals.validated(conn, verdict) {
            Ok(conn) => Ok(PooledConnection { conn }),
            Err(e) => {
                add_connection(&mut self.helpers);
                Err(e)
            },
        }
    }

    /// Gives a checked-out connection back.
    ///
    /// The manager's `has_broken` is asked first.  A working resource joins
    /// the back of the ready queue; a broken one is destroyed (one resource
    /// fewer is live) and a replacement goes into creation.
    pub fn put_back(&mut self, conn: PooledConnection<C>)
        requires
            old(self).wf(),
            old(self).state().checked_out() > 0,
        ensures
            final(self).wf(),
            final(self).settings() == old(self).settings(),
            exists|c: C, broken: bool| #[trigger]
                PoolInternals::returned(old(self).state(), final(self).state(), c, broken),
            final(self).state().checked_out() == old(self).state().checked_out() - 1,
    {
        let mut c = conn.conn;
        let broken = self.manager.has_broken(&mut c);
        let ghost cc = c;
        self.internals.return_conn(c, broken);
        if broken {
            add_connection(&mut self.helpers);
        }
        assert(PoolInternals::returned(old(self).state(), self.state(), cc, broken));
    }

    /// Runs the earliest creation job if it is due at `now`, as a helper
    /// worker would: asks the manager for a new resource, and reports the
    /// error if that fails.  Returns whether a job ran.
    pub fn run_helper_job(&mut self, now: u64) -> (ran: bool)
        requires
            old(self).wf(),
        ensures
            final(self).wf(),
            final(self).settings() == old(self).settings(),
            ran <==> old(self).creation_jobs().len() > 0 && old(self).creation_jobs()[0].time <= now,
            !ran ==> final(self).state() == old(self).state() && final(self).creation_jobs() == old(
                self,
            ).creation_jobs(),
            ran ==> final(self).creation_jobs() == old(self).creation_jobs().drop_first(),
            ran ==> final(self).state().creating() == old(self).state().creating() - 1,
            ran ==> PoolInternals::creation_settled(old(self).state(), final(self).state()),
    {
        match self.helpers.next_job(now) {
            Next::Run(_) => {
                let r = self.manager.connect();
                let ghost before = self.internals;
                let ghost rr = r;
                match self.internals.finish_creation(r) {
                    Some(e) => self.error_handler.handle_error(e),
                    None => {},
                }
                proof {
                    if let Ok(c) = rr {
                        assert(self.internals.ready() == before.ready().push(c));
                    }
                }
                true
            },
            _ => false,
        }
    }

    /// Runs creation jobs, as the helpers would, until none is due.
    /// Returns how many ran.
    pub fn run_helper_jobs(&mut self) -> (n: u32)
        requires
            old(self).wf(),
        ensures
            final(self).wf(),
            final(self).settings() == old(self).settings(),
            n + final(self).state().creating() == old(self).state().creating(),
            n <= old(self).creation_jobs().len(),
            final(self).creation_jobs() == old(self).creation_jobs().subrange(
                n as int,
                old(self).creation_jobs().len() as int,
            ),
            final(self).state().ready().len() <= old(self).state().ready().len() + n,
            final(self).state().ready().subrange(0, old(self).state().ready().len() as int) == old(
                self,
            ).state().ready(),
    {
        let mut n: u32 = 0;
        loop
            invariant
                self.wf(),
                self.config == old(self).config,
                old(self).internals.wf(),
                n + self.internals.creating() == old(self).internals.creating(),
                n <= old(self).helpers.jobs().len(),
                self.helpers.jobs() == old(self).helpers.jobs().subrange(
                    n as int,
                    old(self).helpers.jobs().len() as int,
                ),
                self.internals.ready().len() <= old(self).internals.ready().len() + n,
                self.internals.ready().len() >= old(self).internals.ready().len(),
                self.internals.ready().subrange(0, old(self).internals.ready().len() as int) == old(
                    self,
                ).internals.ready(),
            decreases self.helpers.jobs().len(),
        {
            let now = now_ns();
            let ghost before = self.internals.ready();
            let ghost prev_jobs = self.helpers.jobs();
            if !self.run_helper_job(now) {
                return n;
            }
            proof {
                let m = old(self).internals.ready().len() as int;
                if self.internals.ready().len() > before.len() {
                    let c = choose|c: C| self.internals.ready() == before.push(c);
                    assert(self.internals.ready().subrange(0, m) =~= before.subrange(0, m));
                }
                assert(self.helpers.jobs() == prev_jobs.drop_first());
                assert(self.helpers.jobs() =~= old(self).helpers.jobs().subrange(
                    n + 1,
                    old(self).helpers.jobs().len() as int,
                ));
            }
            n = n + 1;
        }
    }
}

/// Queues the creation of one resource on the helpers.
fn add_connection(helpers: &mut ScheduledThreadPool<(), ()>)
    requires
        old(helpers).wf(),
        !old(helpers).is_shut_down(),
    ensures
        final(helpers).wf(),
        !final(helpers).is_shut_down(),
        final(helpers).workers() == old(helpers).workers(),
        final(helpers).jobs().len() == old(helpers).jobs().len() + 1,
        exists|now: u64|
            inserted(
                old(helpers).jobs(),
                final(helpers).jobs(),
                Job { kind: JobKind::Once(()), time: #[trigger] deadline(now, 0) },
            ),
{
    helpers.run(());
}

/// The live count never exceeds the pool's size.
pub proof fn live_count_bounded<C>(s: &PoolInternals<C>)
    requires
        s.wf(),
    ensures
        s.live() <= s.size(),
{
}

/// Every live resource is in exactly one place: the ready queue, a
/// borrower's hands, or a reserved creation; pending replacements fill the
/// rest of the pool's size at most.
pub proof fn live_resources_accounted<C>(s: &PoolInternals<C>)
    requires
        s.wf(),
    ensures
        s.checked_out() >= 0,
        s.live() == s.ready().len() + s.checked_out() + s.reserving(),
        s.live() + s.replacing() <= s.size(),
{
}

/// A checkout followed by the return of the same, working resource keeps the
/// live count and the collection of idle resources; only their order may
/// change.
pub proof fn checkout_then_return<C>(
    s0: &PoolInternals<C>,
    s1: &PoolInternals<C>,
    s2: &PoolInternals<C>,
    conn: C,
)
    requires
        s0.wf(),
        PoolInternals::took(*s0, *s1, Some(conn)),
        PoolInternals::returned(*s1, *s2, conn, false),
    ensures
        s2.live() == s0.live(),
        s2.creating() == s0.creating(),
        s2.ready().to_multiset() == s0.ready().to_multiset(),
{
    let q = s0.ready();
    assert(q.len() > 0);
    assert(q =~= seq![q[0]] + q.drop_first());
    vstd::seq_lib::lemma_multiset_commutative(seq![q[0]], q.drop_first());
    vstd::seq_lib::lemma_multiset_commutative(q.drop_first(), seq![q[0]]);
    assert(q.drop_first().push(conn) =~= q.drop_first() + seq![q[0]]);
}

/// In a pool, the live count never exceeds the configured size; every live
/// resource is idle, checked out, or a reserved creation; and every creation
/// in flight has its job queued on the helpers.
pub proof fn pool_resources_accounted<C, E, M: PoolManager<C, E>, H: ErrorHandler<E>>(
    p: &Pool<C, E, M, H>,
)
    requires
        p.wf(),
    ensures
        p.state().live() <= p.settings().pool_size,
        p.state().checked_out() >= 0,
        p.state().live() == p.state().ready().len() + p.state().checked_out() + p.state().reserving(),
        p.state().live() + p.state().replacing() <= p.settings().pool_size,
        p.state().creating() == p.creation_jobs().len(),
{
}

} // verus!
