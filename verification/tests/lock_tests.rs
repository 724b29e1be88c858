use spin_mutex::Mutex;

#[test]
fn new_lock_starts_unlocked() {
    let m = Mutex::new(7u64);
    assert!(!m.locked());
}

#[test]
fn try_acquire_takes_a_free_lock() {
    let mut m = Mutex::new(0u64);
    assert!(m.try_acquire());
    assert!(m.locked());
}

#[test]
fn second_acquire_fails_while_held() {
    let mut m = Mutex::new(0u64);
    assert!(m.try_acquire());
    assert!(!m.try_acquire());
    assert!(m.locked());
}

#[test]
fn release_frees_the_lock_for_the_next_acquirer() {
    let mut m = Mutex::new(0u64);
    assert!(m.try_acquire());
    m.release();
    assert!(!m.locked());
    assert!(m.try_acquire());
}

#[test]
fn failed_acquire_changes_nothing() {
    let mut m = Mutex::new(3u64);
    assert!(m.try_acquire());
    assert!(!m.try_acquire());
    assert_eq!(*m.value_ref(), 3);
    assert!(m.locked());
    m.release();
    assert!(!m.locked());
}

#[test]
fn value_is_read_and_written_under_the_lock() {
    let mut m = Mutex::new(5u64);
    assert!(m.try_acquire());
    assert_eq!(*m.value_ref(), 5);
    *m.value_mut() = 9;
    assert_eq!(*m.value_ref(), 9);
    m.release();
    assert!(!m.locked());
}

#[test]
fn with_lock_returns_the_action_result_and_releases() {
    let mut m = Mutex::new(5u64);
    let r = m.with_lock(|v| {
        let prev = *v;
        *v += 1;
        prev
    });
    assert_eq!(r, 5);
    assert!(!m.locked());
}

#[test]
fn write_is_visible_to_the_next_critical_section() {
    let mut m = Mutex::new(0u64);
    m.with_lock(|v| {
        *v = 41;
    });
    let seen = m.with_lock(|v| *v);
    assert_eq!(seen, 41);
}

#[test]
fn lock_is_released_on_every_action_path() {
    let mut m = Mutex::new(1u64);
    let r = m.with_lock(|v| {
        if *v == 1 {
            return "early";
        }
        "normal"
    });
    assert_eq!(r, "early");
    assert!(!m.locked());
    let r2 = m.with_lock(|v| {
        if *v == 2 {
            return "early";
        }
        "normal"
    });
    assert_eq!(r2, "normal");
    assert!(!m.locked());
}

#[test]
fn lock_protects_any_value_type() {
    let mut m = Mutex::new(String::from("a"));
    m.with_lock(|s| s.push('b'));
    let out = m.with_lock(|s| s.clone());
    assert_eq!(out, "ab");
}
