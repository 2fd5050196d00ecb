use openvtc::config::{Config, KeyBackend};
use openvtc::save_coalesce::{SaveScheduler, SkipReason, DEBOUNCE};
use std::cell::Cell;

fn test_config() -> Config {
    Config::new(KeyBackend::Bip32 { seed: vec![7u8; 32] })
}

fn scheduler() -> SaveScheduler {
    SaveScheduler::new("test".to_string())
}

#[test]
fn coalesces_burst_into_single_save() {
    let mut sched = scheduler();
    let saves = Cell::new(0usize);

    for _ in 0..5 {
        sched.mark_dirty(100);
    }
    assert!(sched.is_pending(), "burst should leave a save scheduled");

    let pending = sched
        .take_for_save(100 + DEBOUNCE, || {
            saves.set(saves.get() + 1);
            Ok(test_config())
        })
        .ok()
        .expect("a save should be due after a dirty burst")
        .ok()
        .expect("snapshot should succeed");
    assert_eq!(pending.profile, "test");
    sched.finish(true, 100 + DEBOUNCE);

    let skip = sched.take_for_save(100 + DEBOUNCE, || Ok(test_config()));
    assert_eq!(skip.err(), Some(SkipReason::NotDirty));
    assert_eq!(saves.get(), 1, "5 dirty marks must coalesce into exactly 1 save");
}

#[test]
fn at_most_one_in_flight_and_reschedules() {
    let mut sched = scheduler();

    sched.mark_dirty(0);
    let _pending = sched
        .take_for_save(0, || Ok(test_config()))
        .ok()
        .expect("first save due")
        .ok()
        .expect("snapshot ok");
    assert!(sched.in_flight());

    sched.mark_dirty(1);
    assert_eq!(
        sched.take_for_save(1, || Ok(test_config())).err(),
        Some(SkipReason::InFlight)
    );

    sched.finish(true, 2);
    assert!(!sched.in_flight());
    assert!(sched.is_pending(), "a save dirtied mid-flight must be re-armed");

    let _pending = sched
        .take_for_save(2, || Ok(test_config()))
        .ok()
        .expect("re-armed save due")
        .ok()
        .expect("snapshot ok");
}

#[test]
fn failed_save_is_retried_not_dropped() {
    let mut sched = scheduler();
    sched.mark_dirty(0);
    let _ = sched
        .take_for_save(0, || Ok(test_config()))
        .ok()
        .expect("save due")
        .ok()
        .expect("snapshot ok");
    sched.finish(false, 1);
    assert!(
        sched.is_pending(),
        "a failed save must leave the config dirty for retry, not drop it"
    );
    assert!(sched.take_for_save(1, || Ok(test_config())).is_ok());
}

#[test]
fn shutdown_awaits_inflight_then_flushes_only_if_newly_dirty() {
    let mut sched = scheduler();
    sched.mark_dirty(0);
    let _pending = sched
        .take_for_save(0, || Ok(test_config()))
        .ok()
        .expect("save due")
        .ok()
        .expect("snapshot ok");
    assert!(sched.in_flight(), "teardown must observe the in-flight save and await it");
    sched.finish(true, 1);
    assert!(
        !sched.needs_flush(),
        "after the awaited in-flight save, no redundant shutdown save is run"
    );

    let mut sched = scheduler();
    sched.mark_dirty(0);
    let _pending = sched
        .take_for_save(0, || Ok(test_config()))
        .ok()
        .expect("save due")
        .ok()
        .expect("snapshot ok");
    sched.mark_dirty(1);
    sched.finish(true, 2);
    assert!(
        sched.needs_flush(),
        "a mutation during the in-flight save must still be flushed at shutdown"
    );
}

#[test]
fn flush_persists_and_clears_dirty() {
    let mut sched = scheduler();
    sched.mark_dirty(0);
    assert!(sched.needs_flush());
    let pending = sched.snapshot_now(test_config());
    assert_eq!(pending.profile, "test");
    sched.flushed(false);
    assert!(sched.needs_flush(), "a failed flush must leave the config dirty for retry");
    sched.flushed(true);
    assert!(!sched.needs_flush(), "a successful flush must clear the dirty flag");
}

#[test]
fn wait_deadline_parks_until_armed_then_fires() {
    let mut sched = scheduler();
    assert_eq!(sched.wait_deadline(10_000), None);
    sched.mark_dirty(10_000);
    assert_eq!(sched.wait_deadline(10_000), Some(DEBOUNCE));
    assert_eq!(sched.wait_deadline(10_000 + DEBOUNCE), Some(0));
}

#[test]
fn an_external_save_clears_the_schedule() {
    let mut sched = scheduler();
    sched.mark_dirty(5);
    sched.clear_after_external_save();
    assert!(!sched.is_pending());
    assert!(!sched.needs_flush());
}

#[test]
fn no_snapshot_is_taken_without_a_save_to_start() {
    let mut sched = scheduler();
    let skip = sched.take_for_save(0, || panic!("nothing to save"));
    assert_eq!(skip.err(), Some(SkipReason::NotDirty));
    sched.mark_dirty(1);
    assert!(sched.take_for_save(2, || Ok(test_config())).is_ok());
    sched.mark_dirty(3);
    let skip = sched.take_for_save(4, || panic!("a save is running"));
    assert_eq!(skip.err(), Some(SkipReason::InFlight));
    assert!(sched.needs_flush());
    sched.finish(true, 5);
    assert_eq!(sched.wait_deadline(5), Some(DEBOUNCE));
    sched.flushed(false);
    assert!(sched.needs_flush());
    sched.flushed(true);
    assert!(!sched.is_pending());
}
