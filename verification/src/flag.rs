use vstd::prelude::*;
use std::sync::{Condvar, Mutex};
use core::sync::atomic::{AtomicBool, Ordering};

verus! {

#[verifier::external_type_specification]
#[verifier::external_body]
#[verifier::reject_recursive_types(T)]
pub struct ExMutex<T: ?Sized>(Mutex<T>);

#[verifier::external_type_specification]
#[verifier::external_body]
pub struct ExCondvar(Condvar);

/// A one-way, process-wide cancellation flag.
///
/// It starts unset and can only ever be raised, never cleared.  Raising
/// it wakes every thread blocked in `wait` or `wait_with_timeout`, at
/// once and for good: a wait entered after the raise returns
/// immediately.
pub struct Flag {
    raised_hint: AtomicBool,
    mutex: Mutex<bool>,
    condvar: Condvar,
}

/// Relies on std's Mutex::new.
#[verifier::external_body]
fn new_mutex_bool(value: bool) -> Mutex<bool> {
    Mutex::new(value)
}

/// Relies on std's Condvar::new.
#[verifier::external_body]
fn new_condvar() -> Condvar {
    Condvar::new()
}

impl Flag {
    /// A fresh, unset flag.
    pub fn new() -> Flag {
        Flag {
            raised_hint: AtomicBool::new(false),
            mutex: new_mutex_bool(false),
            condvar: new_condvar(),
        }
    }

    /// Raises the flag and wakes all waiters.  Idempotent: raising an
    /// already-raised flag changes nothing.
    pub fn raise(&self) {
        self.raised_hint.store(true, Ordering::Relaxed);
        self.raise_waiters();
    }

    /// Relies on std's Mutex::lock and Condvar::notify_all: records the
    /// raise under the lock and wakes every blocked waiter.
    #[verifier::external_body]
    fn raise_waiters(&self) {
        *self.mutex.lock().unwrap() = true;
        self.condvar.notify_all();
    }

    /// A non-blocking snapshot: `true` once `raise` has happened.  As a
    /// racy read, a `false` answer may already be stale when it
    /// arrives.
    pub fn was_set(&self) -> bool {
        self.raised_hint.load(Ordering::Relaxed)
    }

    /// Relies on std's Condvar::wait_while: blocks, without spinning,
    /// until the flag is raised.
    #[verifier::external_body]
    pub fn wait(&self) {
        let guard = self.condvar.wait_while(self.mutex.lock().unwrap(), |x| !*x).unwrap();
        drop(guard);
    }

    /// Relies on std's Condvar::wait_timeout_while: blocks, without
    /// spinning, until the flag is raised or `timeout_ms` milliseconds
    /// pass, whichever comes first; `true` means the time ran out.
    #[verifier::external_body]
    pub fn wait_with_timeout(&self, timeout_ms: u64) -> bool {
        let (guard, result) = self.condvar.wait_timeout_while(
            self.mutex.lock().unwrap(),
            std::time::Duration::from_millis(timeout_ms),
            |x| !*x,
        ).unwrap();
        drop(guard);
        result.timed_out()
    }
}

} // verus!
