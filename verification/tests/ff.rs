//! Tests of the force-feedback replication and recovery engine.

use ctrlassist::ff_helpers::{ControlStatus, EffectManager, FfOutcome, PhysicalFFDev};

#[test]
fn manager_upload_erase_set_playing() {
    let mut m: EffectManager<u32> = EffectManager::new();
    m.upload(1, 10);
    m.upload(2, 20);
    assert_eq!(m.effect_ids(), vec![1, 2]);
    assert_eq!(m.get_effect(1), Some(&10));
    assert_eq!(m.get_effect(2), Some(&20));
    assert_eq!(m.get_effect(3), None);

    m.set_playing(1, true);
    assert_eq!(m.get_playing(), vec![1]);

    m.erase(1);
    assert_eq!(m.effect_ids(), vec![2]);
    assert_eq!(m.get_effect(1), None);
    // Playing never yields an id absent from the effects.
    assert_eq!(m.get_playing(), Vec::<i16>::new());
}

#[test]
fn manager_erase_unknown_id_is_noop() {
    let mut m: EffectManager<u32> = EffectManager::new();
    m.upload(5, 50);
    m.erase(9);
    assert_eq!(m.effect_ids(), vec![5]);
}

#[test]
fn manager_set_playing_unknown_id_is_noop() {
    let mut m: EffectManager<u32> = EffectManager::new();
    m.upload(5, 50);
    m.set_playing(9, true);
    assert_eq!(m.get_playing(), Vec::<i16>::new());
    assert_eq!(m.effect_ids(), vec![5]);
}

#[test]
fn manager_reupload_overwrites_and_stops() {
    let mut m: EffectManager<u32> = EffectManager::new();
    m.upload(5, 50);
    m.set_playing(5, true);
    assert_eq!(m.get_playing(), vec![5]);
    m.upload(5, 70);
    assert_eq!(m.effect_ids(), vec![5]);
    assert_eq!(m.get_effect(5), Some(&70));
    // A fresh upload starts stopped.
    assert_eq!(m.get_playing(), Vec::<i16>::new());
}

#[test]
fn fan_out_to_two_devices() {
    // Uploading one effect while two devices are targeted leaves both with
    // a handle for the virtual id; erasing removes both.
    let mut m: EffectManager<u32> = EffectManager::new();
    m.upload(3, 30);
    let mut d1 = PhysicalFFDev::new("/dev/input/event7".to_string());
    let mut d2 = PhysicalFFDev::new("/dev/input/event9".to_string());
    d1.upload_effect(3, FfOutcome::Success);
    d2.upload_effect(3, FfOutcome::Success);
    assert!(d1.has_handle(3));
    assert!(d2.has_handle(3));

    assert!(d1.erase_effect(3));
    assert!(d2.erase_effect(3));
    assert!(!d1.has_handle(3));
    assert!(!d2.has_handle(3));
    // Erasing again is a no-op success.
    assert!(!d1.erase_effect(3));
}

#[test]
fn upload_failure_is_contained_per_id() {
    let mut d = PhysicalFFDev::new("/dev/input/event7".to_string());
    d.upload_effect(4, FfOutcome::Failed);
    assert!(!d.has_handle(4));
    d.upload_effect(5, FfOutcome::Success);
    assert!(d.has_handle(5));
}

#[test]
fn control_outcomes() {
    let mut d = PhysicalFFDev::new("/dev/input/event7".to_string());
    // No handle: a no-op success without any device call.
    assert!(!d.has_handle(2));
    assert_eq!(d.control_effect(2, None), ControlStatus::Done);
    d.upload_effect(2, FfOutcome::Success);
    assert_eq!(d.control_effect(2, Some(FfOutcome::Success)), ControlStatus::Done);
    assert_eq!(d.control_effect(2, Some(FfOutcome::Failed)), ControlStatus::Failed);
    assert_eq!(
        d.control_effect(2, Some(FfOutcome::Disconnected)),
        ControlStatus::NeedsRecovery
    );
}

#[test]
fn recovery_resyncs_every_effect_and_replays_playing_ones() {
    // A disconnect signature on a control call, then a successful reopen:
    // every manager effect is re-uploaded and every playing id replayed.
    let mut m: EffectManager<u32> = EffectManager::new();
    m.upload(1, 10);
    m.upload(2, 20);
    m.set_playing(2, true);

    let mut d = PhysicalFFDev::new("/dev/input/event7".to_string());
    d.upload_effect(1, FfOutcome::Success);
    d.upload_effect(2, FfOutcome::Success);

    // The device drops off the bus.
    assert_eq!(
        d.control_effect(2, Some(FfOutcome::Disconnected)),
        ControlStatus::NeedsRecovery
    );

    // Reopen succeeded: stale handles are discarded and the plan covers
    // the whole manager.
    d.reset_after_reopen();
    assert_eq!(d.path(), "/dev/input/event7");
    assert!(!d.has_handle(1));
    assert!(!d.has_handle(2));
    let plan = d.upload_plan(&m);
    assert_eq!(plan, vec![1, 2]);
    for id in plan {
        assert!(m.get_effect(id).is_some());
        d.upload_effect(id, FfOutcome::Success);
    }
    assert!(d.has_handle(1));
    assert!(d.has_handle(2));
    // Every playing effect is replayed on the fresh handle.
    let playing = m.get_playing();
    assert_eq!(playing, vec![2]);
    for id in playing {
        assert!(d.has_handle(id));
        assert_eq!(d.control_effect(id, Some(FfOutcome::Success)), ControlStatus::Done);
    }
}

#[test]
fn failed_reopen_leaves_state_for_a_later_retry() {
    // When the reopen itself fails, nothing is discarded; recovery is
    // attempted fresh on the next triggering event.
    let mut m: EffectManager<u32> = EffectManager::new();
    m.upload(1, 10);
    let mut d = PhysicalFFDev::new("/dev/input/event7".to_string());
    d.upload_effect(1, FfOutcome::Success);
    assert_eq!(
        d.control_effect(1, Some(FfOutcome::Disconnected)),
        ControlStatus::NeedsRecovery
    );
    // No reset happened; the stale handle is still tracked and the next
    // disconnect outcome asks for recovery again.
    assert!(d.has_handle(1));
    assert_eq!(
        d.control_effect(1, Some(FfOutcome::Disconnected)),
        ControlStatus::NeedsRecovery
    );
}

#[test]
fn sync_plan_skips_effects_already_held() {
    let mut m: EffectManager<u32> = EffectManager::new();
    m.upload(1, 10);
    m.upload(2, 20);
    m.upload(3, 30);
    let mut d = PhysicalFFDev::new("/dev/input/event7".to_string());
    d.upload_effect(2, FfOutcome::Success);
    assert_eq!(d.upload_plan(&m), vec![1, 3]);
}
