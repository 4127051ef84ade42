//! The kernel backend: futex wait and wake on a 32-bit word.
//!
//! `wait` hands the expected value to the kernel together with the word's
//! address, and the kernel re-checks the two for equality and puts the thread
//! to sleep in one atomic step — the check-then-sleep race is closed inside
//! the system call, with no locking in this library. `wake` treats the
//! address purely as a lookup key into the kernel's table of sleeping
//! threads and never reads the word itself.

use vstd::prelude::*;
use core::sync::atomic::AtomicU32;

verus! {

/// The wake count that means "every waiter": the kernel reads the count as a
/// signed integer, so the largest positive one asks for all of them.
pub const ALL_WAITERS: u32 = 0x7fff_ffff;

/// Relies on rustix::thread::futex::wait, the FUTEX_WAIT system call: the
/// kernel atomically compares the word with `expected` and returns at once if
/// they differ; otherwise the calling thread sleeps until a futex wake on the
/// same address, a signal, or a spurious wakeup. It always returns
/// eventually once a wake arrives, never writes through `word`, and never
/// panics; a mismatch or an interruption comes back as an error, which is
/// one of the permitted ways for a wait to end.
#[verifier::external_body]
pub(crate) fn futex_wait(word: &AtomicU32, expected: u32) {
    let _ = rustix::thread::futex::wait(
        word,
        rustix::thread::futex::Flags::PRIVATE,
        expected,
        None,
    );
}

/// Relies on rustix::thread::futex::wake, the FUTEX_WAKE system call: wakes
/// at most `count` threads currently sleeping in a futex wait on this word's
/// address and reports how many it woke — zero when none were waiting. The
/// kernel uses the address only as a key and never dereferences it, and the
/// call never blocks and never panics.
#[verifier::external_body]
pub(crate) fn futex_wake(word: &AtomicU32, count: u32) -> (woken: usize)
    ensures
        woken <= count as usize,
{
    rustix::thread::futex::wake(word, rustix::thread::futex::Flags::PRIVATE, count).unwrap_or(0)
}

} // verus!
