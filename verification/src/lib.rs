//! Cross-thread wait and wake on a machine word.
//!
//! A caller shares a watched word between threads. A thread that observed a
//! value calls `wait` with it: if the word still holds that value, the thread
//! sleeps until another thread calls `wake_one` or `wake_all` on the same
//! word, or until a spurious wakeup. A return from `wait` carries no
//! guarantee that the value changed: callers must re-check their condition
//! in a loop.
//!
//! Three widths are offered. The native 32-bit width rides the kernel's own
//! atomic check-then-sleep and takes a plain `AtomicU32`. The 64-bit and
//! pointer-sized widths, which the kernel primitive cannot compare whole, go
//! through a monitored word of this library that pairs the value with a
//! notification counter.
//!
//! The wake side never reads the watched word — it only pokes the kernel's
//! table of sleepers — so a wake needs no live word at all: it takes an
//! optional reference, and `None` (the absent word, where a raw interface
//! would pass a null address) is a verified no-op.
//!
//! This library holds no state of its own and establishes no memory
//! ordering for its callers: the watched word is read relaxed, and callers
//! fence the store before a wake and the load after a wait as their own
//! protocol requires. (The wide widths do order their internal notification
//! counter, but that is backend bookkeeping, not a promise to callers.)

use vstd::prelude::*;

mod futex;
mod monitor;

pub use monitor::arm64;
pub use monitor::arm_size;
pub use monitor::Arming;
pub use monitor::Word64;
pub use monitor::WordPtr;

use core::sync::atomic::AtomicU32;

verus! {

/// If the word's value is `value`, wait until woken up.
///
/// The kernel compares the word against `value` and puts the thread to sleep
/// in one atomic step, so a wake that follows a change of the word cannot be
/// missed. This function may also return spuriously, without a corresponding
/// wake; the caller re-checks its condition either way.
pub fn wait(atomic: &AtomicU32, value: u32) {
    futex::futex_wait(atomic, value);
}

/// If the word's value is `value`, wait until woken up.
///
/// The wide widths re-check the value in this library, between taking the
/// monitor snapshot and sleeping on it, so a wake racing the sleep still
/// ends it. This function may also return spuriously, without a
/// corresponding wake; the caller re-checks its condition either way.
pub fn wait_u64(word: &Word64, value: u64) {
    monitor::wait64(word, value);
}

/// If the word's value is `value`, wait until woken up.
///
/// This function may also return spuriously, without a corresponding wake;
/// the caller re-checks its condition either way.
pub fn wait_ptr(word: &WordPtr, value: usize) {
    monitor::wait_size(word, value);
}

/// Wake one thread that is waiting on this word.
///
/// The word is never read: `None`, standing for a word that no longer
/// exists, is a no-op, and waking a word with no waiters does nothing.
pub fn wake_one(atomic: Option<&AtomicU32>) {
    match atomic {
        Some(a) => {
            let _woken: usize = futex::futex_wake(a, 1);
        },
        None => {},
    }
}

/// Wake one thread that is waiting on this word.
///
/// The word's value is never read: `None`, standing for a word that no
/// longer exists, is a no-op, and waking a word with no waiters does
/// nothing.
pub fn wake_one_u64(word: Option<&Word64>) {
    match word {
        Some(w) => monitor::notify64(w, 1),
        None => {},
    }
}

/// Wake one thread that is waiting on this word.
///
/// The word's value is never read: `None`, standing for a word that no
/// longer exists, is a no-op, and waking a word with no waiters does
/// nothing.
pub fn wake_one_ptr(word: Option<&WordPtr>) {
    match word {
        Some(w) => monitor::notify_size(w, 1),
        None => {},
    }
}

/// Wake all threads that are waiting on this word.
///
/// The word is never read: `None`, standing for a word that no longer
/// exists, is a no-op, and waking a word with no waiters does nothing.
pub fn wake_all(atomic: Option<&AtomicU32>) {
    match atomic {
        Some(a) => {
            let _woken: usize = futex::futex_wake(a, futex::ALL_WAITERS);
        },
        None => {},
    }
}

/// Wake all threads that are waiting on this word.
///
/// The word's value is never read: `None`, standing for a word that no
/// longer exists, is a no-op, and waking a word with no waiters does
/// nothing.
pub fn wake_all_u64(word: Option<&Word64>) {
    match word {
        Some(w) => monitor::notify64(w, futex::ALL_WAITERS),
        None => {},
    }
}

/// Wake all threads that are waiting on this word.
///
/// The word's value is never read: `None`, standing for a word that no
/// longer exists, is a no-op, and waking a word with no waiters does
/// nothing.
pub fn wake_all_ptr(word: Option<&WordPtr>) {
    match word {
        Some(w) => monitor::notify_size(w, futex::ALL_WAITERS),
        None => {},
    }
}

} // verus!
