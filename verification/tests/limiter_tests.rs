use bannerscan::limiter::Limiter;
use bannerscan::range::PortRange;
use bannerscan::scan::Dispatcher;

#[test]
fn fresh_limiter_has_all_permits() {
    let l = Limiter::new(100);
    assert_eq!(l.permits(), 100);
    assert_eq!(l.max_permits(), 100);
}

#[test]
fn acquire_takes_and_release_returns_one_permit() {
    let mut l = Limiter::new(2);
    assert!(l.try_acquire());
    assert_eq!(l.permits(), 1);
    assert!(l.try_acquire());
    assert_eq!(l.permits(), 0);
    assert!(!l.try_acquire());
    assert_eq!(l.permits(), 0);
    l.release();
    assert_eq!(l.permits(), 1);
    assert!(l.try_acquire());
    l.release();
    l.release();
    assert_eq!(l.permits(), 2);
}

#[test]
fn empty_limiter_grants_nothing() {
    let mut l = Limiter::new(0);
    assert!(!l.try_acquire());
    assert_eq!(l.permits(), 0);
}

#[test]
fn dispatcher_creates_one_task_per_port() {
    let range = PortRange { start: 1, end: 1024 };
    let d = Dispatcher::new(&range, 100);
    assert_eq!(d.pending_tasks(), 1024);
    assert_eq!(d.running_tasks(), 0);
    assert_eq!(d.finished_tasks(), 0);
    assert_eq!(d.capacity(), 100);
    assert_eq!(d.permits_free(), 100);
    assert!(!d.is_done());
}

#[test]
fn running_tasks_never_exceed_capacity() {
    let range = PortRange { start: 1, end: 1024 };
    let mut d = Dispatcher::new(&range, 100);
    // Fill the limiter: after the hundredth start nothing more may start.
    while d.try_start() {
        assert!(d.running_tasks() <= 100);
    }
    assert_eq!(d.running_tasks(), 100);
    assert_eq!(d.permits_free(), 0);
    assert_eq!(d.pending_tasks(), 924);
}

#[test]
fn finishing_a_task_frees_a_slot_for_the_next() {
    let range = PortRange { start: 1, end: 3 };
    let mut d = Dispatcher::new(&range, 1);
    assert!(d.try_start());
    assert!(!d.try_start());
    d.finish_one();
    assert_eq!(d.permits_free(), 1);
    assert!(d.try_start());
    d.finish_one();
    assert!(d.try_start());
    assert!(!d.try_start());
    d.finish_one();
    assert!(d.is_done());
}

#[test]
fn completed_scan_returns_every_permit() {
    let range = PortRange { start: 1, end: 257 };
    let mut d = Dispatcher::new(&range, 16);
    let mut probes: u32 = 0;
    while !d.is_done() {
        while d.try_start() {
            assert!(d.running_tasks() <= 16);
        }
        while d.running_tasks() > 0 {
            d.finish_one();
            probes += 1;
        }
    }
    assert_eq!(probes, 257);
    assert_eq!(d.finished_tasks(), 257);
    assert_eq!(d.permits_free(), 16);
    assert_eq!(d.capacity(), 16);
}
