use chronolog_core::clock::VirtualClock;

#[test]
fn test_initial_epoch() {
    let clock = VirtualClock::from_epoch();
    assert_eq!(clock.now(), 0);
}

#[test]
fn test_custom_time() {
    let time0: u64 = 45 * 1000;
    let clock = VirtualClock::new(time0);
    assert_eq!(clock.now(), time0);
}

#[test]
fn test_advance() {
    let mut clock = VirtualClock::from_epoch();
    clock.advance(1000);
    assert_eq!(clock.now(), 1000);
    clock.advance(100 * 1000);
    assert_eq!(clock.now(), 101 * 1000);
}

#[test]
fn test_advance_to() {
    let mut clock = VirtualClock::from_epoch();
    let target: u64 = 19 * 1000;
    clock.advance_to(target);
    assert_eq!(clock.now(), target);
}

#[test]
fn test_idle_to_simple_no_arc() {
    let mut clock = VirtualClock::from_epoch();
    let target: u64 = 5 * 1000;
    clock.advance(5 * 1000);
    assert!(clock.has_reached(target));
    assert_eq!(clock.now(), target);
}

#[test]
fn virtual_clock_advance_wraps_like_the_atomic_counter() {
    let mut clock = VirtualClock::new(u64::MAX);
    clock.advance(2);
    assert_eq!(clock.now(), 1);
}

#[test]
fn virtual_clock_advance_to_can_move_back() {
    let mut clock = VirtualClock::new(50_000);
    clock.advance_to(19_000);
    assert_eq!(clock.now(), 19_000);
    assert!(!clock.has_reached(20_000));
    assert!(clock.has_reached(19_000));
}
