use relm_core::config::{AppSlot, RuntimeConfig};

#[test]
fn defaults_apply_when_nothing_is_set() {
    let mut cfg = RuntimeConfig::new();
    let (workers, blocking) = cfg.seal();
    assert_eq!(workers, 1);
    assert_eq!(blocking, 512);
}

#[test]
fn each_knob_is_set_at_most_once() {
    let mut cfg = RuntimeConfig::new();
    assert!(cfg.set_worker_threads(4));
    assert!(!cfg.set_worker_threads(8));
    assert!(cfg.set_max_blocking_threads(64));
    assert!(!cfg.set_max_blocking_threads(128));
    let (workers, blocking) = cfg.seal();
    assert_eq!(workers, 4);
    assert_eq!(blocking, 64);
}

#[test]
fn application_slot_initializes_once_on_first_use() {
    let mut slot: AppSlot<String> = AppSlot::new();
    assert_eq!(slot.get_or_init(String::from("default")), "default");
    // The slot was filled on first use: a later fresh handle is ignored.
    assert_eq!(slot.get_or_init(String::from("other")), "default");
}

#[test]
fn application_slot_override_wins() {
    let mut slot: AppSlot<String> = AppSlot::new();
    slot.set(String::from("custom"));
    assert_eq!(slot.get_or_init(String::from("default")), "custom");
    // An override after first use replaces the stored handle.
    slot.set(String::from("replacement"));
    assert_eq!(slot.get_or_init(String::from("default")), "replacement");
}

#[test]
fn writes_after_first_scheduler_use_are_ignored() {
    let mut cfg = RuntimeConfig::new();
    let (workers, _) = cfg.seal();
    assert_eq!(workers, 1);
    assert!(!cfg.set_worker_threads(16));
    let (workers, blocking) = cfg.seal();
    assert_eq!(workers, 1);
    assert_eq!(blocking, 512);
}
