use atomic_wait::{
    arm64, arm_size, wait, wait_ptr, wait_u64, wake_all, wake_all_ptr, wake_all_u64, wake_one,
    wake_one_ptr, wake_one_u64, Arming, Word64, WordPtr,
};
use std::sync::atomic::AtomicU32;
use std::sync::atomic::Ordering::Relaxed;
use std::time::{Duration, Instant};

/// Parks the calling thread for `ms` milliseconds.
fn sleep_ms(ms: u64) {
    let (keep_alive, timer) = std::sync::mpsc::channel::<()>();
    let _keep_alive = keep_alive;
    let _ = timer.recv_timeout(Duration::from_millis(ms));
}

#[test]
fn wake_null() {
    wake_one(None);
    wake_all(None);
}

#[test]
fn wake_null_u64() {
    wake_one_u64(None);
    wake_all_u64(None);
}

#[test]
fn wake_null_ptr() {
    wake_one_ptr(None);
    wake_all_ptr(None);
}

#[test]
fn wake_nothing() {
    let a = AtomicU32::new(0);
    wake_one(Some(&a));
    wake_all(Some(&a));
}

#[test]
fn wake_nothing_u64() {
    let a = Word64::new(0);
    wake_one_u64(Some(&a));
    wake_all_u64(Some(&a));
}

#[test]
fn wake_nothing_ptr() {
    let a = WordPtr::new(0);
    wake_one_ptr(Some(&a));
    wake_all_ptr(Some(&a));
}

#[test]
fn wait_unexpected() {
    let t = Instant::now();
    let a = AtomicU32::new(0);
    wait(&a, 1);
    assert!(t.elapsed().as_millis() < 100);
}

#[test]
fn wait_unexpected_u64() {
    let t = Instant::now();
    let a = Word64::new(0);
    wait_u64(&a, 1);
    assert!(t.elapsed().as_millis() < 100);
}

#[test]
fn wait_unexpected_ptr() {
    let t = Instant::now();
    let a = WordPtr::new(0);
    wait_ptr(&a, 1);
    assert!(t.elapsed().as_millis() < 100);
}

#[test]
fn wait_wake() {
    let t = Instant::now();
    let a = AtomicU32::new(0);
    crossbeam_utils::thread::scope(|s| {
        s.spawn(|_| {
            sleep_ms(100);
            a.store(1, Relaxed);
            wake_one(Some(&a));
        });
        while a.load(Relaxed) == 0 {
            wait(&a, 0);
        }
        assert_eq!(a.load(Relaxed), 1);
        assert!((90..400).contains(&t.elapsed().as_millis()));
    })
    .unwrap();
}

#[test]
fn wait_wake_u64() {
    let t = Instant::now();
    let a = Word64::new(0);
    crossbeam_utils::thread::scope(|s| {
        s.spawn(|_| {
            sleep_ms(100);
            a.value.store(1, Relaxed);
            wake_one_u64(Some(&a));
        });
        while a.value.load(Relaxed) == 0 {
            wait_u64(&a, 0);
        }
        assert_eq!(a.value.load(Relaxed), 1);
        assert!((90..400).contains(&t.elapsed().as_millis()));
    })
    .unwrap();
}

#[test]
fn wait_wake_ptr() {
    let t = Instant::now();
    let a = WordPtr::new(0);
    crossbeam_utils::thread::scope(|s| {
        s.spawn(|_| {
            sleep_ms(100);
            a.value.store(1, Relaxed);
            wake_one_ptr(Some(&a));
        });
        while a.value.load(Relaxed) == 0 {
            wait_ptr(&a, 0);
        }
        assert_eq!(a.value.load(Relaxed), 1);
        assert!((90..400).contains(&t.elapsed().as_millis()));
    })
    .unwrap();
}

#[test]
fn wait_wake_all() {
    let t = Instant::now();
    let a = AtomicU32::new(0);
    crossbeam_utils::thread::scope(|s| {
        s.spawn(|_| {
            sleep_ms(100);
            a.store(1, Relaxed);
            wake_all(Some(&a));
        });
        while a.load(Relaxed) == 0 {
            wait(&a, 0);
        }
        assert_eq!(a.load(Relaxed), 1);
        assert!((90..400).contains(&t.elapsed().as_millis()));
    })
    .unwrap();
}

#[test]
fn wait_wake_all_u64() {
    let t = Instant::now();
    let a = Word64::new(0);
    crossbeam_utils::thread::scope(|s| {
        s.spawn(|_| {
            sleep_ms(100);
            a.value.store(1, Relaxed);
            wake_all_u64(Some(&a));
        });
        while a.value.load(Relaxed) == 0 {
            wait_u64(&a, 0);
        }
        assert_eq!(a.value.load(Relaxed), 1);
        assert!((90..400).contains(&t.elapsed().as_millis()));
    })
    .unwrap();
}

// A wake with no change of the word must send the waiter back to sleep
// through its re-check loop, not convince it that anything happened.
#[test]
fn spurious_wake_recheck() {
    let a = AtomicU32::new(0);
    crossbeam_utils::thread::scope(|s| {
        s.spawn(|_| {
            sleep_ms(50);
            wake_all(Some(&a));
            sleep_ms(100);
            a.store(1, Relaxed);
            wake_all(Some(&a));
        });
        while a.load(Relaxed) == 0 {
            wait(&a, 0);
        }
        assert_eq!(a.load(Relaxed), 1);
    })
    .unwrap();
}

#[test]
fn arm_decision() {
    assert_eq!(arm64(5, 0, 0), Arming::Sleep { snapshot: 5 });
    assert_eq!(arm64(9, u64::MAX, u64::MAX), Arming::Sleep { snapshot: 9 });
    assert_eq!(arm64(5, 0, 1), Arming::AlreadyChanged);
    assert_eq!(arm64(5, u64::MAX, u64::MAX - 1), Arming::AlreadyChanged);
    assert_eq!(arm_size(3, 7, 7), Arming::Sleep { snapshot: 3 });
    assert_eq!(arm_size(3, 7, 8), Arming::AlreadyChanged);
}
