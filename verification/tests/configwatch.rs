use resettime::vrconfig::{
    config_watch_step, ConfigWatchAction, ConfigWatchInput, ConfigWatchState, Event, VRConfig,
    VRConfigLegTweaks, VRConfigSkeleton, VRConfigSkeletonToggles,
};
use resettime::watcher::ChangeKind;

#[test]
fn burst_of_edits_collapses_to_one_reload() {
    let mut state = ConfigWatchState { pending_debounce: false };
    let mut reloads = 0;
    // five modifications arrive within one debounce window: each restarts the
    // timer, so it expires only once, after the burst
    for _ in 0..5 {
        let (next, action) = config_watch_step(state, ConfigWatchInput::Change(ChangeKind::ModifiedData));
        assert_eq!(action, ConfigWatchAction::RestartDebounce);
        if action == ConfigWatchAction::ReloadAndPublish {
            reloads += 1;
        }
        state = next;
    }
    let (state, action) = config_watch_step(state, ConfigWatchInput::DebounceFire);
    if action == ConfigWatchAction::ReloadAndPublish {
        reloads += 1;
    }
    assert_eq!(reloads, 1, "five rapid edits reload exactly once");
    assert!(!state.pending_debounce);
}

#[test]
fn connect_reloads_once_and_error_reconnects() {
    let armed = ConfigWatchState { pending_debounce: true };
    assert_eq!(
        config_watch_step(armed, ConfigWatchInput::Connected),
        (ConfigWatchState { pending_debounce: false }, ConfigWatchAction::ReloadAndPublish)
    );
    assert_eq!(
        config_watch_step(armed, ConfigWatchInput::Change(ChangeKind::Error)),
        (ConfigWatchState { pending_debounce: false }, ConfigWatchAction::Reconnect)
    );
    let idle = ConfigWatchState { pending_debounce: false };
    assert_eq!(
        config_watch_step(idle, ConfigWatchInput::DebounceFire),
        (idle, ConfigWatchAction::Ignore),
        "a stray timer expiry with nothing pending does nothing"
    );
    assert_eq!(
        config_watch_step(idle, ConfigWatchInput::Change(ChangeKind::Created)),
        (idle, ConfigWatchAction::Ignore)
    );
    assert_eq!(
        config_watch_step(idle, ConfigWatchInput::Change(ChangeKind::ModifiedOther)),
        (ConfigWatchState { pending_debounce: true }, ConfigWatchAction::RestartDebounce)
    );
}

#[test]
fn empty_snapshot_reads_as_everything_off() {
    let c = VRConfig::new();
    assert!(!c.floor_clip_on());
    assert!(!c.skating_correction_on());
    assert_eq!(c.correction_strength_percent(), 0);
}

#[test]
fn populated_snapshot_reads_its_toggles() {
    let c = VRConfig {
        skeleton: Some(VRConfigSkeleton {
            toggles: Some(VRConfigSkeletonToggles {
                skating_correction: Some(true),
                floor_clip: Some(false),
            }),
        }),
        leg_tweaks: Some(VRConfigLegTweaks { correction_strength_percent: Some(30) }),
    };
    assert!(c.skating_correction_on());
    assert!(!c.floor_clip_on());
    assert_eq!(c.correction_strength_percent(), 30);
    let partial = VRConfig {
        skeleton: Some(VRConfigSkeleton { toggles: None }),
        leg_tweaks: Some(VRConfigLegTweaks { correction_strength_percent: None }),
    };
    assert!(!partial.floor_clip_on());
    assert_eq!(partial.correction_strength_percent(), 0);
}

#[test]
fn reload_event_is_a_bare_marker() {
    let e = Event::Reload;
    assert_eq!(e, Event::Reload);
}
