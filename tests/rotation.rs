use veko_dome::{ProxyRotator, RotationStep, SharedRotator, rotation_step};

fn pool(names: &[&str]) -> Vec<String> {
    names.iter().map(|s| s.to_string()).collect()
}

#[test]
fn new_rotator_starts_at_first_entry() {
    let r = ProxyRotator::new(pool(&["a:1", "b:2"]), 30, 500);
    assert_eq!(r.current(), "a:1");
    assert_eq!(r.current_index(), 0);
    assert_eq!(r.last_rotation_ms(), 500);
    assert_eq!(r.interval_secs(), 30);
    assert_eq!(r.len(), 2);
}

#[test]
fn rotation_wraps_around() {
    let mut r = ProxyRotator::new(pool(&["a", "b", "c"]), 1, 0);
    r.rotate(1000);
    assert_eq!(r.current(), "b");
    r.rotate(2000);
    assert_eq!(r.current(), "c");
    r.rotate(3000);
    assert_eq!(r.current(), "a");
    assert_eq!(r.last_rotation_ms(), 3000);
}

#[test]
fn index_after_k_rotations_is_k_mod_n() {
    for n in 1..5usize {
        let names: Vec<String> = (0..n).map(|i| format!("p{}", i)).collect();
        let mut r = ProxyRotator::new(names, 0, 0);
        for k in 0..12u64 {
            assert_eq!(r.current_index(), (k as usize) % n);
            r.rotate(k + 1);
        }
    }
}

#[test]
fn rotation_moves_timestamp_forward() {
    let mut r = ProxyRotator::new(pool(&["a", "b"]), 5, 100);
    let before = r.last_rotation_ms();
    r.rotate(101);
    assert!(r.last_rotation_ms() > before);
}

#[test]
fn single_entry_rotates_to_itself_and_resets_timestamp() {
    let mut r = ProxyRotator::new(pool(&["only:1"]), 10, 0);
    assert!(r.should_rotate(10_000));
    r.rotate(10_000);
    assert_eq!(r.current(), "only:1");
    assert_eq!(r.last_rotation_ms(), 10_000);
    assert!(!r.should_rotate(10_001));
}

#[test]
fn should_rotate_boundary_is_inclusive() {
    let r = ProxyRotator::new(pool(&["a"]), 10, 1_000);
    assert!(!r.should_rotate(10_999));
    assert!(r.should_rotate(11_000));
    assert!(r.should_rotate(11_001));
}

#[test]
fn zero_interval_is_always_due() {
    let r = ProxyRotator::new(pool(&["a", "b"]), 0, 7);
    assert!(r.should_rotate(7));
    assert!(r.should_rotate(8));
}

#[test]
fn clock_before_last_rotation_is_not_due() {
    let r = ProxyRotator::new(pool(&["a", "b"]), 0, 7);
    assert!(!r.should_rotate(6));
}

#[test]
fn three_proxy_schedule() {
    let mut r = ProxyRotator::new(pool(&["proxyA:1080", "proxyB:1080", "proxyC:1080"]), 10, 0);
    assert_eq!(r.current(), "proxyA:1080");
    assert!(!r.should_rotate(9_999));
    assert!(r.should_rotate(10_000));
    assert!(r.tick(10_000));
    assert_eq!(r.current(), "proxyB:1080");
    assert_eq!(r.last_rotation_ms(), 10_000);
    assert!(!r.should_rotate(19_900));
    assert!(!r.tick(19_900));
    assert_eq!(r.current(), "proxyB:1080");
    assert!(r.should_rotate(20_000));
    assert!(r.tick(20_000));
    assert_eq!(r.current(), "proxyC:1080");
}

#[test]
fn shared_rotator_reads_and_ticks() {
    let s = SharedRotator::new(ProxyRotator::new(pool(&["x", "y"]), 1, 0));
    assert_eq!(s.current(), "x");
    assert_eq!(s.tick(500), None);
    assert_eq!(s.tick(1_000), Some("y".to_string()));
    let snap = s.snapshot();
    assert_eq!(snap.endpoint, "y");
    assert_eq!(snap.last_rotation_ms, 1_000);
}

#[test]
fn interleaved_snapshots_pair_endpoint_with_its_rotation() {
    let s = SharedRotator::new(ProxyRotator::new(pool(&["p0", "p1", "p2"]), 0, 0));
    for t in 1..=30u64 {
        let snap = s.snapshot();
        assert_eq!(snap.endpoint, format!("p{}", (snap.last_rotation_ms as usize) % 3));
        s.tick(t);
        assert_eq!(s.current(), format!("p{}", (t as usize) % 3));
    }
    let snap = s.snapshot();
    assert_eq!(snap.last_rotation_ms, 30);
    assert_eq!(snap.endpoint, "p0");
}

#[test]
fn rotation_step_stops_on_cancellation() {
    let s = SharedRotator::new(ProxyRotator::new(pool(&["x", "y"]), 0, 0));
    assert!(matches!(rotation_step(&s, true, 5), RotationStep::Stop));
    assert_eq!(s.current(), "x");
    match rotation_step(&s, false, 5) {
        RotationStep::Continue(Some(e)) => assert_eq!(e, "y"),
        _ => panic!("expected a rotation"),
    }
}
