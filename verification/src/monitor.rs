//! Wide watched words: 64-bit and pointer-sized.
//!
//! The kernel futex compares exactly 32 bits, so a wider word cannot be
//! handed to it directly. A wide word therefore carries a monitor beside its
//! value: a 32-bit counter of notifications that doubles as the futex its
//! waiters sleep on. A waiter snapshots the counter, re-checks the value,
//! and sleeps only while the counter still equals the snapshot, so a wake
//! that lands between the re-check and the sleep has advanced the counter
//! and the sleep returns at once — no wakeup is missed.
//!
//! An optimized wide path that sleeps on the watched memory itself (as some
//! native runtimes offer) is deliberately not taken: with a value wider than
//! the futex the kernel can compare, it is known to miss wakeups in an
//! ABA-shaped race. The monitor path is used for every wide width.

use vstd::prelude::*;
use crate::futex;
use core::sync::atomic::AtomicU32;
use core::sync::atomic::AtomicU64;
use core::sync::atomic::AtomicUsize;

verus! {

/// A 64-bit watched word: the caller-owned value, and the monitor its
/// waiters sleep on. The caller reads and writes `value` directly, with
/// whatever memory ordering its own protocol needs.
pub struct Word64 {
    /// The watched value.
    pub value: AtomicU64,
    /// Notification counter; bumped by every wake, slept on by every waiter.
    monitor: AtomicU32,
}

/// A pointer-sized watched word, for callers that watch an address-sized
/// value. The word holds the bare bits as an integer and never treats them
/// as a pointer: nothing here is dereferenced.
pub struct WordPtr {
    /// The watched value.
    pub value: AtomicUsize,
    /// Notification counter; bumped by every wake, slept on by every waiter.
    monitor: AtomicU32,
}

impl Word64 {
    /// A fresh word holding `value`, with no pending notifications.
    pub fn new(value: u64) -> Word64 {
        Word64 { value: AtomicU64::new(value), monitor: AtomicU32::new(0) }
    }
}

impl WordPtr {
    /// A fresh word holding `value`, with no pending notifications.
    pub fn new(value: usize) -> WordPtr {
        WordPtr { value: AtomicUsize::new(value), monitor: AtomicU32::new(0) }
    }
}

/// The outcome of arming a wait, decided after the monitor snapshot was
/// taken and the word re-read: either the word still held the observed
/// value and the waiter may block on that snapshot, or the value had
/// already changed and the wait is over without blocking.
#[derive(Clone, Copy, Debug, PartialEq, Eq, Structural)]
pub enum Arming {
    /// The re-check held: sleep while the counter still equals the snapshot.
    Sleep { snapshot: u32 },
    /// The re-check failed: return at once.
    AlreadyChanged,
}

/// The arm-time re-check for a 64-bit word: an armed waiter may block only
/// while the word still holds the value it last observed, and then only on
/// the monitor snapshot it took before re-reading the word; after any
/// change it must return at once.
pub fn arm64(snapshot: u32, current: u64, expected: u64) -> (a: Arming)
    ensures
        current == expected ==> a == (Arming::Sleep { snapshot }),
        current != expected ==> a == Arming::AlreadyChanged,
{
    if current == expected {
        Arming::Sleep { snapshot }
    } else {
        Arming::AlreadyChanged
    }
}

/// The pointer-width twin of `arm64`.
pub fn arm_size(snapshot: u32, current: usize, expected: usize) -> (a: Arming)
    ensures
        current == expected ==> a == (Arming::Sleep { snapshot }),
        current != expected ==> a == Arming::AlreadyChanged,
{
    if current == expected {
        Arming::Sleep { snapshot }
    } else {
        Arming::AlreadyChanged
    }
}

/// If the word still holds `expected`, sleep until a wake or a spurious
/// wakeup; otherwise return at once. The monitor snapshot is taken before
/// the value is re-checked, so a wake between the re-check and the sleep is
/// seen as an advanced counter and ends the sleep immediately. The snapshot
/// is an acquire load: the value may not be read ahead of it, or a wake
/// landing between the two reads could go unseen by both. The value itself
/// is read relaxed, as everywhere in this library.
pub(crate) fn wait64(word: &Word64, expected: u64) {
    let snapshot: u32 = word.monitor.load(core::sync::atomic::Ordering::Acquire);
    let current: u64 = word.value.load(core::sync::atomic::Ordering::Relaxed);
    match arm64(snapshot, current, expected) {
        Arming::Sleep { snapshot } => futex::futex_wait(&word.monitor, snapshot),
        Arming::AlreadyChanged => {},
    }
}

/// The pointer-width twin of `wait64`.
pub(crate) fn wait_size(word: &WordPtr, expected: usize) {
    let snapshot: u32 = word.monitor.load(core::sync::atomic::Ordering::Acquire);
    let current: usize = word.value.load(core::sync::atomic::Ordering::Relaxed);
    match arm_size(snapshot, current, expected) {
        Arming::Sleep { snapshot } => futex::futex_wait(&word.monitor, snapshot),
        Arming::AlreadyChanged => {},
    }
}

/// Record a notification and wake at most `count` of the word's waiters.
/// The counter bump comes first, so a waiter between its re-check and its
/// sleep cannot miss this wake; it is a release, pairing with the waiter's
/// acquire snapshot, so a waiter that saw the bumped counter also sees what
/// the waker stored before it. The counter wraps; a waiter would be misled
/// only if exactly a multiple of 2^32 notifications landed inside its
/// arming window.
pub(crate) fn notify64(word: &Word64, count: u32) {
    word.monitor.fetch_add(1, core::sync::atomic::Ordering::Release);
    let _woken: usize = futex::futex_wake(&word.monitor, count);
}

/// The pointer-width twin of `notify64`.
pub(crate) fn notify_size(word: &WordPtr, count: u32) {
    word.monitor.fetch_add(1, core::sync::atomic::Ordering::Release);
    let _woken: usize = futex::futex_wake(&word.monitor, count);
}

} // verus!
