use monolib::registry::Registry;

#[test]
fn handles_distinct_and_nonzero() {
    let mut reg: Registry<u32> = Registry::new();
    let mut handles = Vec::new();
    for v in 0..10u32 {
        handles.push(reg.create(v));
    }
    for (i, h) in handles.iter().enumerate() {
        assert_ne!(*h, 0);
        for g in handles.iter().skip(i + 1) {
            assert_ne!(*h, *g);
        }
    }
}

#[test]
fn handles_not_reused_after_destroy() {
    let mut reg: Registry<u32> = Registry::new();
    let h1 = reg.create(1);
    reg.destroy(h1);
    let h2 = reg.create(2);
    assert_ne!(h1, h2);
}

#[test]
fn lookup_after_destroy_not_found() {
    let mut reg: Registry<u32> = Registry::new();
    let h = reg.create(7);
    assert_eq!(reg.get(h).copied(), Some(7));
    assert!(reg.contains(h));
    reg.destroy(h);
    assert_eq!(reg.get(h).copied(), None);
    assert!(!reg.contains(h));
    assert_eq!(reg.with(h, |v| *v + 1), None);
}

#[test]
fn destroy_is_idempotent() {
    let mut reg: Registry<u32> = Registry::new();
    let h = reg.create(3);
    let other = reg.create(4);
    reg.destroy(h);
    reg.destroy(h);
    reg.destroy(12345);
    assert_eq!(reg.get(other).copied(), Some(4));
    assert_eq!(reg.get(h).copied(), None);
}

#[test]
fn with_runs_operation_on_live_instance() {
    let mut reg: Registry<String> = Registry::new();
    let h = reg.create(String::from("abc"));
    assert_eq!(reg.with(h, |s| s.len()), Some(3));
}

#[test]
fn interleaved_handles_do_not_interfere() {
    let mut reg: Registry<u32> = Registry::new();
    let a = reg.create(100);
    let b = reg.create(200);
    assert_eq!(reg.get(a).copied(), Some(100));
    reg.destroy(b);
    assert_eq!(reg.get(a).copied(), Some(100));
    assert_eq!(reg.get(b).copied(), None);
    let c = reg.create(300);
    assert_eq!(reg.get(a).copied(), Some(100));
    assert_eq!(reg.get(c).copied(), Some(300));
    reg.destroy(a);
    assert_eq!(reg.get(c).copied(), Some(300));
}
