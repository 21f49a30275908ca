use std::cell::RefCell;
use std::default::Default;
use std::rc::Rc;
use std::sync::atomic::{AtomicBool, AtomicUsize, Ordering};
use std::sync::Mutex;

use r2d2::{Config, ConfigError, ErrorHandler, NoopErrorHandler, Pool, PoolInternals, PoolManager};

#[derive(Debug, PartialEq)]
struct FakeConnection;

struct OkManager;

impl PoolManager<FakeConnection, ()> for OkManager {
    fn connect(&self) -> Result<FakeConnection, ()> {
        Ok(FakeConnection)
    }

    fn is_valid(&self, _: &mut FakeConnection) -> Result<(), ()> {
        Ok(())
    }

    fn has_broken(&self, _: &mut FakeConnection) -> bool {
        false
    }
}

struct NthConnectFailManager {
    n: Mutex<u32>,
}

impl PoolManager<FakeConnection, ()> for NthConnectFailManager {
    fn connect(&self) -> Result<FakeConnection, ()> {
        let mut n = self.n.lock().unwrap();
        if *n > 0 {
            *n -= 1;
            Ok(FakeConnection)
        } else {
            Err(())
        }
    }

    fn is_valid(&self, _: &mut FakeConnection) -> Result<(), ()> {
        Ok(())
    }

    fn has_broken(&self, _: &mut FakeConnection) -> bool {
        false
    }
}

#[test]
fn test_pool_size_ok() {
    let config = Config {
        pool_size: 5,
        ..Default::default()
    };
    let manager = NthConnectFailManager { n: Mutex::new(5) };
    let mut pool = Pool::new(config, manager, NoopErrorHandler).unwrap();
    pool.run_helper_jobs();
    let mut conns = vec![];
    for _ in 0..config.pool_size {
        conns.push(pool.get().ok().unwrap());
    }
}

#[test]
fn test_acquire_release() {
    let config = Config {
        pool_size: 2,
        ..Default::default()
    };
    let mut pool = Pool::new(config, OkManager, NoopErrorHandler).unwrap();
    pool.run_helper_jobs();

    let conn1 = pool.get().ok().unwrap();
    let conn2 = pool.get().ok().unwrap();
    pool.put_back(conn1);
    let conn3 = pool.get().ok().unwrap();
    pool.put_back(conn2);
    pool.put_back(conn3);
}

#[test]
fn test_is_send_sync() {
    fn is_send_sync<T: Send + Sync>() {}
    is_send_sync::<Pool<FakeConnection, (), OkManager, NoopErrorHandler>>();
}

static DROPPED: AtomicBool = AtomicBool::new(false);

struct Connection;

impl Drop for Connection {
    fn drop(&mut self) {
        DROPPED.store(true, Ordering::SeqCst);
    }
}

struct Handler;

impl PoolManager<Connection, ()> for Handler {
    fn connect(&self) -> Result<Connection, ()> {
        Ok(Connection)
    }

    fn is_valid(&self, _: &mut Connection) -> Result<(), ()> {
        Ok(())
    }

    fn has_broken(&self, _: &mut Connection) -> bool {
        true
    }
}

#[test]
fn test_drop_on_broken() {
    DROPPED.store(false, Ordering::SeqCst);
    let mut pool = Pool::new(Default::default(), Handler, NoopErrorHandler).unwrap();
    pool.run_helper_jobs();

    let conn = pool.get().ok().unwrap();
    pool.put_back(conn);

    assert!(DROPPED.load(Ordering::SeqCst));
}

// A boxed error handler works and does not recurse into itself.
#[test]
fn test_boxed_error_handler() {
    let handler: Box<dyn ErrorHandler<()>> = Box::new(NoopErrorHandler);
    handler.handle_error(());
    Pool::new(Default::default(), OkManager, handler).unwrap();
}

struct Counting {
    connects: AtomicUsize,
    drops: Rc<RefCell<Vec<u32>>>,
}

struct Numbered(u32, Rc<RefCell<Vec<u32>>>);

impl Drop for Numbered {
    fn drop(&mut self) {
        self.1.borrow_mut().push(self.0);
    }
}

/// Connects with increasing numbers; numbers 1 and 2 fail validation once
/// each, and every resource whose number is a multiple of 10 is broken.
impl PoolManager<Numbered, String> for Counting {
    fn connect(&self) -> Result<Numbered, String> {
        let n = self.connects.fetch_add(1, Ordering::SeqCst) as u32 + 1;
        Ok(Numbered(n, self.drops.clone()))
    }

    fn is_valid(&self, conn: &mut Numbered) -> Result<(), String> {
        if conn.0 == 1 || conn.0 == 2 {
            Err(format!("bad {}", conn.0))
        } else {
            Ok(())
        }
    }

    fn has_broken(&self, conn: &mut Numbered) -> bool {
        conn.0 % 10 == 0
    }
}

struct Collect(Rc<RefCell<Vec<String>>>);

impl ErrorHandler<String> for Collect {
    fn handle_error(&self, error: String) {
        self.0.borrow_mut().push(error);
    }
}

#[test]
fn happy_acquire_exhausts_the_pool() {
    let config = Config {
        pool_size: 5,
        ..Default::default()
    };
    let mut pool = Pool::new(config, OkManager, NoopErrorHandler).unwrap();
    assert_eq!(pool.idle(), 0);
    assert_eq!(pool.live_count(), 5);
    assert_eq!(pool.in_creation(), 5);
    assert!(pool.get().is_err());
    assert_eq!(pool.run_helper_jobs(), 5);
    let mut conns = vec![];
    for _ in 0..5 {
        conns.push(pool.get().ok().unwrap());
    }
    assert_eq!(pool.borrowed(), 5);
    assert!(pool.get().is_err());
    pool.put_back(conns.pop().unwrap());
    assert_eq!(pool.idle(), 1);
    assert!(pool.get().is_ok());
    assert_eq!(pool.live_count(), 5);
}

#[test]
fn failed_connects_leave_the_pool_short() {
    let config = Config {
        pool_size: 5,
        ..Default::default()
    };
    let manager = NthConnectFailManager { n: Mutex::new(3) };
    let mut pool = Pool::new(config, manager, NoopErrorHandler).unwrap();
    assert_eq!(pool.run_helper_jobs(), 5);
    assert_eq!(pool.live_count(), 3);
    assert_eq!(pool.in_creation(), 0);
    let mut conns = vec![];
    for _ in 0..3 {
        conns.push(pool.get().ok().unwrap());
    }
    assert!(pool.get().is_err());
    assert_eq!(pool.run_helper_jobs(), 0);
    assert!(pool.get().is_err());
}

#[test]
fn broken_resource_is_destroyed_and_replaced() {
    let drops = Rc::new(RefCell::new(vec![]));
    let manager = Counting { connects: AtomicUsize::new(9), drops: drops.clone() };
    let config = Config {
        pool_size: 1,
        test_on_check_out: false,
        ..Default::default()
    };
    let mut pool = Pool::new(config, manager, NoopErrorHandler).unwrap();
    pool.run_helper_jobs();
    let conn = pool.get().ok().unwrap();
    assert_eq!(conn.get_ref().0, 10);
    pool.put_back(conn);
    assert_eq!(*drops.borrow(), vec![10]);
    assert_eq!(pool.live_count(), 0);
    assert_eq!(pool.in_creation(), 1);
    assert_eq!(pool.idle(), 0);
    assert_eq!(pool.run_helper_jobs(), 1);
    assert_eq!(pool.live_count(), 1);
    let conn = pool.get().ok().unwrap();
    assert_eq!(conn.get_ref().0, 11);
}

#[test]
fn failed_validation_is_reported_and_replaced() {
    let drops = Rc::new(RefCell::new(vec![]));
    let manager = Counting { connects: AtomicUsize::new(0), drops: drops.clone() };
    let errors = Rc::new(RefCell::new(vec![]));
    let config = Config {
        pool_size: 3,
        test_on_check_out: true,
        ..Default::default()
    };
    let mut pool = Pool::new(config, manager, Collect(errors.clone())).unwrap();
    pool.run_helper_jobs();
    let conn = pool.get().ok().unwrap();
    assert_eq!(conn.get_ref().0, 3);
    assert_eq!(*errors.borrow(), vec!["bad 1".to_string(), "bad 2".to_string()]);
    assert_eq!(*drops.borrow(), vec![1, 2]);
    assert_eq!(pool.live_count(), 1);
    assert_eq!(pool.in_creation(), 2);
    assert_eq!(pool.borrowed(), 1);
    assert_eq!(pool.run_helper_jobs(), 2);
    assert_eq!(pool.live_count(), 3);
    assert_eq!(pool.get().ok().unwrap().get_ref().0, 4);
}

#[test]
fn returned_resources_are_handed_out_in_order() {
    let drops = Rc::new(RefCell::new(vec![]));
    let manager = Counting { connects: AtomicUsize::new(2), drops: drops.clone() };
    let config = Config {
        pool_size: 3,
        ..Default::default()
    };
    let mut pool = Pool::new(config, manager, NoopErrorHandler).unwrap();
    pool.run_helper_jobs();
    let a = pool.get().ok().unwrap();
    let mut b = pool.get().ok().unwrap();
    assert_eq!((a.get_ref().0, b.get_ref().0), (3, 4));
    b.get_mut().0 = 44;
    pool.put_back(b);
    pool.put_back(a);
    assert_eq!(pool.get().ok().unwrap().get_ref().0, 5);
    assert_eq!(pool.get().ok().unwrap().get_ref().0, 44);
    assert_eq!(pool.get().ok().unwrap().get_ref().0, 3);
}

#[test]
fn invalid_configs_are_rejected() {
    let zero = Config { pool_size: 0, ..Default::default() };
    assert_eq!(zero.validate(), Err(ConfigError::ZeroPoolSize));
    assert_eq!(
        Pool::new(zero, OkManager, NoopErrorHandler).err(),
        Some(ConfigError::ZeroPoolSize)
    );
    let no_helpers = Config { helper_tasks: 0, ..Default::default() };
    assert_eq!(no_helpers.validate(), Err(ConfigError::ZeroHelperTasks));
    assert_eq!(
        Pool::new(no_helpers, OkManager, NoopErrorHandler).err(),
        Some(ConfigError::ZeroHelperTasks)
    );
    let both = Config { pool_size: 0, helper_tasks: 0, test_on_check_out: false };
    assert_eq!(both.validate(), Err(ConfigError::ZeroPoolSize));
    assert_eq!(ConfigError::ZeroPoolSize.description(), "pool_size must be positive");
    assert_eq!(ConfigError::ZeroHelperTasks.description(), "helper_tasks must be positive");
}

#[test]
fn default_config() {
    let c = Config::default();
    assert_eq!((c.pool_size, c.helper_tasks, c.test_on_check_out), (10, 3, true));
    assert_eq!(c.validate(), Ok(()));
}

#[test]
fn internals_bookkeeping() {
    let mut s: PoolInternals<u32> = PoolInternals::new(3);
    assert_eq!((s.idle(), s.live_count(), s.in_creation(), s.borrowed()), (0, 3, 3, 0));
    assert_eq!(s.finish_creation::<&str>(Ok(7)), None);
    assert_eq!(s.finish_creation::<&str>(Ok(8)), None);
    assert_eq!(s.finish_creation(Err("down")), Some("down"));
    assert_eq!((s.idle(), s.live_count(), s.in_creation(), s.borrowed()), (2, 2, 0, 0));
    assert_eq!(s.take_ready(), Some(7));
    assert_eq!(s.borrowed(), 1);
    // a working resource goes back and wakes one waiter
    assert!(s.return_conn(7, false));
    assert_eq!((s.idle(), s.live_count(), s.borrowed()), (2, 2, 0));
    assert_eq!(s.take_ready(), Some(8));
    assert_eq!(s.take_ready(), Some(7));
    assert_eq!(s.take_ready(), None);
    // a broken one is replaced and wakes nobody
    assert!(!s.return_conn(8, true));
    assert_eq!((s.idle(), s.live_count(), s.in_creation(), s.borrowed()), (0, 1, 1, 1));
    s.replace_checked_out();
    assert_eq!((s.idle(), s.live_count(), s.in_creation(), s.borrowed()), (0, 0, 2, 0));
    // replacements become live only when they are created
    assert_eq!(s.finish_creation::<&str>(Ok(9)), None);
    assert_eq!((s.idle(), s.live_count(), s.in_creation(), s.borrowed()), (1, 1, 1, 0));
    assert_eq!(s.finish_creation(Err("down")), Some("down"));
    assert_eq!((s.idle(), s.live_count(), s.in_creation(), s.borrowed()), (1, 1, 0, 0));
}

#[test]
fn checkout_then_return_keeps_the_idle_set() {
    let mut s: PoolInternals<u32> = PoolInternals::new(3);
    for c in [1, 2, 3] {
        s.finish_creation::<()>(Ok(c));
    }
    let live = s.live_count();
    let c = s.take_ready().unwrap();
    s.return_conn(c, false);
    assert_eq!(s.live_count(), live);
    let mut idle = vec![];
    while let Some(c) = s.take_ready() {
        idle.push(c);
    }
    assert_eq!(idle, vec![2, 3, 1]);
}

#[test]
fn dropping_the_pool_destroys_idle_resources() {
    let drops = Rc::new(RefCell::new(vec![]));
    let manager = Counting { connects: AtomicUsize::new(2), drops: drops.clone() };
    let config = Config {
        pool_size: 3,
        ..Default::default()
    };
    let mut pool = Pool::new(config, manager, NoopErrorHandler).unwrap();
    pool.run_helper_jobs();
    let held = pool.get().ok().unwrap();
    drop(pool);
    assert_eq!(*drops.borrow(), vec![4, 5]);
    drop(held);
    assert_eq!(*drops.borrow(), vec![4, 5, 3]);
}

#[test]
fn validation_verdict_decides_the_checkout() {
    let mut s: PoolInternals<u32> = PoolInternals::new(2);
    s.finish_creation::<()>(Ok(1));
    s.finish_creation::<()>(Ok(2));
    let c = s.take_ready().unwrap();
    assert_eq!(s.validated(c, Ok::<(), &str>(())), Ok(1));
    assert_eq!((s.idle(), s.live_count(), s.in_creation(), s.borrowed()), (1, 2, 0, 1));
    let c = s.take_ready().unwrap();
    assert_eq!(s.validated(c, Err("stale")), Err("stale"));
    assert_eq!((s.idle(), s.live_count(), s.in_creation(), s.borrowed()), (0, 1, 1, 1));

    let mut pool = Pool::new(Config { pool_size: 1, ..Default::default() }, OkManager, NoopErrorHandler).unwrap();
    pool.run_helper_jobs();
    let h = pool.get().ok().unwrap();
    let conn = match pool.validated(FakeConnection, Err(())) {
        Err(()) => FakeConnection,
        Ok(_) => panic!("a failed validation handed the resource out"),
    };
    assert_eq!(conn, FakeConnection);
    assert_eq!((pool.in_creation(), pool.live_count(), pool.borrowed()), (1, 0, 0));
    drop(h);
    assert_eq!(pool.run_helper_jobs(), 1);
    let h = pool.get().ok().unwrap();
    let again = pool.validated(FakeConnection, Ok(())).ok().unwrap();
    assert_eq!(*again.get_ref(), FakeConnection);
    assert_eq!((pool.in_creation(), pool.live_count(), pool.borrowed()), (0, 1, 1));
    drop(h);
}
