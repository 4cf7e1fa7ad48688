use vstd::prelude::*;
use std::sync::Condvar;
use std::sync::Mutex;
use std::sync::MutexGuard;
use crate::error::XCapError;
use crate::error::XCapResult;

verus! {

#[verifier::external_type_specification]
#[verifier::external_body]
#[verifier::reject_recursive_types(T)]
pub struct ExMutex<T: ?Sized>(Mutex<T>);

#[verifier::external_type_specification]
#[verifier::external_body]
pub struct ExCondvar(Condvar);

#[verifier::external_type_specification]
#[verifier::external_body]
#[verifier::reject_recursive_types(T)]
pub struct ExMutexGuard<'a, T: ?Sized + 'a>(MutexGuard<'a, T>);

/// The flag a lock guard protects. While a guard is held no other thread
/// can change the flag, so the value is a function of the guard alone.
pub uninterp spec fn guard_value(g: MutexGuard<bool>) -> bool;

/// The value a flag mutex was created with. The mutex's current contents
/// are shared mutable state and get no name, but the value of its
/// creation is fixed by its history, so it is a function of the mutex
/// alone.
pub uninterp spec fn flag_mutex_init(m: Mutex<bool>) -> bool;

/// Relies on std::sync::Mutex::new: wraps the given value as the flag's
/// initial contents.
#[verifier::external_body]
fn flag_mutex_new(v: bool) -> (m: Mutex<bool>)
    ensures
        flag_mutex_init(m) == v,
{
    Mutex::new(v)
}

/// Relies on std::sync::Condvar::new: a fresh condition variable with no
/// waiters.
#[verifier::external_body]
fn condvar_new() -> Condvar {
    Condvar::new()
}

/// Relies on std::sync::Mutex::lock: blocks until the lock is acquired
/// and returns the guard, or an error when the lock was poisoned by a
/// panicking holder. The flag may have any value at acquisition.
#[verifier::external_body]
fn lock_flag<'a>(m: &'a Mutex<bool>) -> (r: Result<MutexGuard<'a, bool>, XCapError>)
    ensures
        r matches Err(e) ==> e == XCapError::LockError,
{
    match m.lock() {
        Ok(g) => Ok(g),
        Err(_) => Err(XCapError::LockError),
    }
}

/// Relies on the Deref impl of std::sync::MutexGuard: reads the flag the
/// guard protects.
#[verifier::external_body]
fn read_flag(g: &MutexGuard<bool>) -> (b: bool)
    ensures
        b == guard_value(*g),
{
    **g
}

/// Relies on the DerefMut impl of std::sync::MutexGuard: writes the flag
/// the guard protects.
#[verifier::external_body]
fn write_flag(g: &mut MutexGuard<bool>, v: bool)
    ensures
        guard_value(*final(g)) == v,
{
    **g = v;
}

/// Relies on std::sync::Condvar::wait_while: atomically releases the
/// lock and blocks the calling thread until the given condition reads
/// false under the re-acquired lock, re-checking after every
/// notification, spurious wakeups included. The closure handed over
/// only reads the flag itself, so the guard that comes back protects a
/// flag that was observed false at the check immediately preceding
/// return. Returns an error when the lock was poisoned.
#[verifier::external_body]
fn wait_while_parked<'a>(cv: &Condvar, g: MutexGuard<'a, bool>) -> (r: Result<
    MutexGuard<'a, bool>,
    XCapError,
>)
    ensures
        r matches Ok(g2) ==> guard_value(g2) == false,
        r matches Err(e) ==> e == XCapError::LockError,
{
    match cv.wait_while(g, |parked: &mut bool| *parked) {
        Ok(g2) => Ok(g2),
        Err(_) => Err(XCapError::LockError),
    }
}

/// Relies on std::sync::Condvar::notify_one: releases at most one thread
/// currently blocked on the condition variable; a no-op when none is.
#[verifier::external_body]
fn notify_one(cv: &Condvar) {
    cv.notify_one();
}

/// Blocking park/signal primitive coordinating a frame-producing thread
/// with a consumer. The state is one `parking` flag protected by a lock,
/// paired with a condition variable: `parking == true` means a thread
/// calling `wait` must block; `wake` clears the flag and releases at most
/// one waiter. The flag is the single source of truth, checked under the
/// lock before and after every wakeup, which makes the primitive
/// level-triggered: a `wake` with no waiter is still observed by the next
/// `wait`.
#[derive(Debug)]
pub struct RecorderWaker {
    parking: Mutex<bool>,
    condvar: Condvar,
}

impl RecorderWaker {
    /// Whether this waker's flag was created set: a waker built that way
    /// parks the first `wait` until the first `wake`.
    pub closed spec fn starts_parked(self) -> bool {
        flag_mutex_init(self.parking)
    }

    /// A fresh waker starts parked: `wait` blocks until the first `wake`.
    pub fn new() -> (r: RecorderWaker)
        ensures
            r.starts_parked(),
    {
        RecorderWaker { parking: flag_mutex_new(true), condvar: condvar_new() }
    }

    /// Clears the parking flag under the lock and signals the condition
    /// variable, releasing at most one blocked waiter. Safe to call when
    /// no waiter exists: the flag change is still recorded, so a `wait`
    /// arriving afterwards returns without blocking. Fails only when the
    /// lock is poisoned.
    pub fn wake(&self) -> (r: XCapResult<()>)
        ensures
            r matches Err(e) ==> e == XCapError::LockError,
    {
        let mut g = match lock_flag(&self.parking) {
            Ok(g) => g,
            Err(e) => { return Err(e); },
        };
        write_flag(&mut g, false);
        notify_one(&self.condvar);
        Ok(())
    }

    /// Sets the parking flag under the lock: subsequent `wait` calls
    /// block until the next `wake`. Fails only when the lock is poisoned.
    pub fn sleep(&self) -> (r: XCapResult<()>)
        ensures
            r matches Err(e) ==> e == XCapError::LockError,
    {
        let mut g = match lock_flag(&self.parking) {
            Ok(g) => g,
            Err(e) => { return Err(e); },
        };
        write_flag(&mut g, true);
        Ok(())
    }

    /// Blocks the calling thread until the parking flag is observed false
    /// under the lock, tolerating spurious wakeups by re-checking the
    /// flag after every notification. Returns as soon as the flag is
    /// false, in particular immediately when a `wake` already cleared it.
    /// Fails only when the lock is poisoned.
    pub fn wait(&self) -> (r: XCapResult<()>)
        ensures
            r matches Err(e) ==> e == XCapError::LockError,
    {
        let g = match lock_flag(&self.parking) {
            Ok(g) => g,
            Err(e) => { return Err(e); },
        };
        match block_until_cleared(&self.condvar, g) {
            Ok(_g) => Ok(()),
            Err(e) => Err(e),
        }
    }
}

/// The blocking step of `wait`: under the held lock, return at once when
/// the flag already reads false, else release the lock into the
/// condition variable until the flag clears. The contract is the point:
/// a guard is only ever handed back with the flag observed false at the
/// check immediately preceding return, so `wait` cannot return
/// unblocked while `parking` is still set; and a flag already cleared
/// at entry is success owed, not a blocking path — the level-triggered
/// case where an earlier `wake` is observed without any notification.
fn block_until_cleared<'a>(cv: &Condvar, g: MutexGuard<'a, bool>) -> (r: Result<
    MutexGuard<'a, bool>,
    XCapError,
>)
    ensures
        r matches Ok(g2) ==> guard_value(g2) == false,
        r matches Err(e) ==> e == XCapError::LockError,
        guard_value(g) == false ==> (r matches Ok(g2) && g2 == g),
{
    if !read_flag(&g) {
        return Ok(g);
    }
    wait_while_parked(cv, g)
}

/// One mutation of the parking flag, as `wake` and `sleep` perform it
/// under the lock. The model below states what the flag protocol
/// guarantees across whole call sequences, which no contract on the
/// shared exec state can express: every operation overwrites the flag,
/// so the value after a sequence is decided by its tail alone.
pub enum WakerOp {
    Wake,
    Sleep,
}

/// The flag after one operation: `wake` clears it, `sleep` sets it,
/// whatever it held before.
pub open spec fn apply_op(parking: bool, op: WakerOp) -> bool {
    match op {
        WakerOp::Wake => false,
        WakerOp::Sleep => true,
    }
}

/// The flag after a sequence of operations, applied in order. A fresh
/// waker starts with `parking == true`.
pub open spec fn apply_ops(parking: bool, ops: Seq<WakerOp>) -> bool
    decreases ops.len(),
{
    if ops.len() == 0 {
        parking
    } else {
        apply_ops(apply_op(parking, ops[0]), ops.subrange(1, ops.len() as int))
    }
}

/// Whether `wait` blocks when it finds the flag in this state.
pub open spec fn wait_blocks(parking: bool) -> bool {
    parking
}

/// A cleared flag stays cleared across any run of operations that
/// contains no `sleep`.
pub proof fn lemma_no_sleep_keeps_cleared(ops: Seq<WakerOp>)
    requires
        forall|j: int| 0 <= j < ops.len() ==> ops[j] != WakerOp::Sleep,
    ensures
        !apply_ops(false, ops),
    decreases ops.len(),
{
    if ops.len() > 0 {
        let tail = ops.subrange(1, ops.len() as int);
        assert(forall|j: int| 0 <= j < tail.len() ==> tail[j] == ops[j + 1]);
        lemma_no_sleep_keeps_cleared(tail);
    }
}

/// Liveness at the flag level: after any sequence of operations in
/// which at least one `wake` occurred since the last `sleep` — or since
/// construction, the initial state being the same as after a `sleep` —
/// the flag is cleared, so a `wait` that follows does not block.
pub proof fn lemma_wake_since_sleep_unblocks(init: bool, ops: Seq<WakerOp>, i: int)
    requires
        0 <= i < ops.len(),
        ops[i] == WakerOp::Wake,
        forall|j: int| i < j < ops.len() ==> ops[j] != WakerOp::Sleep,
    ensures
        !wait_blocks(apply_ops(init, ops)),
    decreases ops.len(),
{
    let tail = ops.subrange(1, ops.len() as int);
    assert(forall|j: int| 0 <= j < tail.len() ==> tail[j] == ops[j + 1]);
    if i == 0 {
        lemma_no_sleep_keeps_cleared(tail);
    } else {
        lemma_wake_since_sleep_unblocks(apply_op(init, ops[0]), tail, i - 1);
    }
}

/// Repeated `wake` calls without an interleaved `sleep` are idempotent:
/// the first already clears the flag, another changes nothing, and a
/// subsequent `wait` does not block either way.
pub proof fn lemma_wake_idempotent(parking: bool)
    ensures
        apply_op(apply_op(parking, WakerOp::Wake), WakerOp::Wake) == apply_op(
            parking,
            WakerOp::Wake,
        ),
        !wait_blocks(apply_op(parking, WakerOp::Wake)),
{
}

/// `sleep` re-arms the waker: immediately afterwards `wait` blocks, and
/// a `wake` issued while it blocks clears the flag, after which `wait`
/// is released.
pub proof fn lemma_sleep_blocks_until_wake(parking: bool)
    ensures
        wait_blocks(apply_op(parking, WakerOp::Sleep)),
        !wait_blocks(apply_op(apply_op(parking, WakerOp::Sleep), WakerOp::Wake)),
{
}

} // verus!
