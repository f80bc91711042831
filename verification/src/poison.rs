//! Poisoning of lock-like objects: a flag that remembers that an owner
//! panicked while holding the lock, for threads and coroutines alike.

use vstd::prelude::*;

verus! {

/// The error half of a [`LockResult`]: the guarded value, handed over
/// although a previous owner panicked.
pub struct PoisonError<T> {
    guard: T,
}

impl<T> PoisonError<T> {
    /// The value carried by the error.
    pub closed spec fn inner(self) -> T {
        self.guard
    }

    pub fn new(guard: T) -> (e: PoisonError<T>)
        ensures
            e.inner() == guard,
    {
        PoisonError { guard }
    }

    pub fn into_inner(self) -> (guard: T)
        ensures
            guard == self.inner(),
    {
        self.guard
    }

    pub fn get_ref(&self) -> (guard: &T)
        ensures
            *guard == self.inner(),
    {
        &self.guard
    }
}

/// `Ok` while the lock is sound, `Err` once it is poisoned; both carry the value.
pub type LockResult<T> = Result<T, PoisonError<T>>;

/// What `borrow` remembers for the matching `done`: whether the caller was
/// already unwinding when it took the lock.
pub struct Guard {
    panicking: bool,
}

impl Guard {
    /// Whether the borrower was unwinding when the guard was made.
    pub closed spec fn was_panicking(&self) -> bool {
        self.panicking
    }
}

/// The poison flag of one lock. It starts clear and, once set, stays set.
pub struct Flag {
    failed: bool,
}

impl Flag {
    /// Whether an owner has panicked while holding the lock.
    pub closed spec fn is_poisoned(&self) -> bool {
        self.failed
    }

    pub fn new() -> (flag: Flag)
        ensures
            !flag.is_poisoned(),
    {
        Flag { failed: false }
    }

    /// Takes the lock's guard. `panicking` says whether the caller is
    /// unwinding right now. The guard is returned in either case: as `Ok`
    /// while the flag is clear, as `Err` once it is set.
    pub fn borrow(&self, panicking: bool) -> (result: LockResult<Guard>)
        ensures
            result is Err <==> self.is_poisoned(),
            match result {
                Ok(guard) => guard.was_panicking() == panicking,
                Err(e) => e.inner().was_panicking() == panicking,
            },
    {
        let ret = Guard { panicking };
        if self.get() {
            Err(PoisonError::new(ret))
        } else {
            Ok(ret)
        }
    }

    /// Gives the guard back. The flag is set exactly when a panic began
    /// while the lock was held: the caller unwinds now and did not when it
    /// borrowed. A set flag is never cleared.
    pub fn done(&mut self, guard: &Guard, panicking: bool)
        ensures
            final(self).is_poisoned() == (old(self).is_poisoned() || (!guard.was_panicking()
                && panicking)),
    {
        if !guard.panicking && panicking {
            self.failed = true;
        }
    }

    pub fn get(&self) -> (poisoned: bool)
        ensures
            poisoned == self.is_poisoned(),
    {
        self.failed
    }
}

/// Applies `f` to the value inside a lock result and keeps the side it was on.
pub fn map_result<T, U, F>(result: LockResult<T>, f: F) -> (mapped: LockResult<U>) where
    F: FnOnce(T) -> U,

    requires
        match result {
            Ok(t) => f.requires((t,)),
            Err(e) => f.requires((e.inner(),)),
        },
    ensures
        match result {
            Ok(t) => mapped is Ok && f.ensures((t,), mapped->Ok_0),
            Err(e) => mapped is Err && f.ensures((e.inner(),), mapped->Err_0.inner()),
        },
{
    match result {
        Ok(t) => Ok(f(t)),
        Err(guard) => Err(PoisonError::new(f(guard.into_inner()))),
    }
}

} // verus!
