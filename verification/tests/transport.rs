use rusic::Transport;

#[test]
fn fresh_transport_is_stopped_at_zero() {
    let t = Transport::new();
    assert!(t.stopped());
    assert_eq!(t.current_time(), 0);
    assert_eq!(t.duration_of(&"a.mp3".to_owned()), None);
}

#[test]
fn duration_cache_is_idempotent() {
    let mut t = Transport::new();
    let path = "a.mp3".to_owned();
    t.cache_duration(&path, 180_000);
    assert_eq!(t.duration_of(&path), Some(180_000));
    // a later value for the same path never overwrites the first
    t.cache_duration(&path, 99);
    assert_eq!(t.duration_of(&path), Some(180_000));
}

#[test]
fn duration_cache_keeps_every_path() {
    let mut t = Transport::new();
    let a = "a.mp3".to_owned();
    let b = "b.mp3".to_owned();
    t.cache_duration(&a, 1000);
    t.cache_duration(&b, 2000);
    assert_eq!(t.duration_of(&a), Some(1000));
    assert_eq!(t.duration_of(&b), Some(2000));
    assert_eq!(t.duration_of(&"c.mp3".to_owned()), None);
}

#[test]
fn snapshot_copies_the_whole_record() {
    let mut t = Transport::new();
    let path = "a.mp3".to_owned();
    t.set_stopped(false);
    t.set_current_time(1234);
    t.cache_duration(&path, 60_000);

    let snap = t.snapshot();
    assert!(!snap.stopped());
    assert_eq!(snap.current_time(), 1234);
    assert_eq!(snap.duration_of(&path), Some(60_000));

    // the copy is detached: changing the original leaves it alone
    t.set_current_time(9999);
    assert_eq!(snap.current_time(), 1234);
}
