use niri_sense::config::{SenseConfig, SenseEventConfig};
use niri_sense::integration::{binding_for, DeviceTargets, Integration, NiriEvent, TestStep, VibrationPlan};
use niri_sense::sense_app::{loop_stream_step, StreamStep};
use niri_sense::util::{SenseVibrationLength, SenseVibrationStrength};
use niri_sense::util::SenseVibrationLength as L;
use niri_sense::util::SenseVibrationStrength as S;

fn plan(strength_percent: u8, length_ms: u64) -> Option<VibrationPlan> {
    Some(VibrationPlan { strength_percent, length_ms })
}

fn on(strength: SenseVibrationStrength, length: SenseVibrationLength) -> SenseEventConfig {
    SenseEventConfig { state: true, strength, length }
}

#[test]
fn a_new_state_is_unpaused_with_every_device_selected() {
    let i = Integration::new(SenseConfig::default());
    assert!(!i.is_paused());
    assert_eq!(i.selected_device(), -1);
    assert_eq!(i.skip_event_count(), 0);
    assert!(!i.quit_requested());
    assert!(!i.quit_flag);
}

#[test]
fn presets_pick_values_from_the_configuration() {
    let i = Integration::new(SenseConfig::default());
    assert_eq!(i._enum_length(SenseVibrationLength::Short), 80);
    assert_eq!(i._enum_length(SenseVibrationLength::Medium), 160);
    assert_eq!(i._enum_length(SenseVibrationLength::Long), 240);
    assert_eq!(i._enum_length(SenseVibrationLength::CustomA), 320);
    assert_eq!(i._enum_length(SenseVibrationLength::CustomB), 480);
    assert_eq!(i._enum_strength(SenseVibrationStrength::Low), 20);
    assert_eq!(i._enum_strength(SenseVibrationStrength::Medium), 50);
    assert_eq!(i._enum_strength(SenseVibrationStrength::High), 80);
    assert_eq!(i._enum_strength(SenseVibrationStrength::CustomA), 10);
    assert_eq!(i._enum_strength(SenseVibrationStrength::CustomB), 100);
}

#[test]
fn vibrations_need_a_connection_and_no_pause() {
    let mut i = Integration::new(SenseConfig::default());
    let (s, l) = (SenseVibrationStrength::High, SenseVibrationLength::Long);
    assert_eq!(i.vibrate_action(true, s, l), plan(80, 240));
    assert_eq!(i.vibrate_action(false, s, l), None);
    assert!(i.toggle_pause());
    assert_eq!(i.vibrate_action(true, s, l), None);
    assert!(!i.toggle_pause());
    assert_eq!(i.vibrate_action(true, s, l), plan(80, 240));
}

#[test]
fn device_selection_goes_by_device_index() {
    let mut i = Integration::new(SenseConfig::default());
    assert_eq!(i._set_multiple(&vec![]), DeviceTargets::All);
    assert_eq!(i._set_multiple(&vec![0, 1, 2]), DeviceTargets::All);
    i.select_device(1);
    assert_eq!(i.selected_device(), 1);
    assert_eq!(i._set_multiple(&vec![0, 1]), DeviceTargets::One(1));
    assert_eq!(i._set_multiple(&vec![1, 3]), DeviceTargets::One(0));
    i.select_device(3);
    assert_eq!(i._set_multiple(&vec![0, 3]), DeviceTargets::One(1));
}

#[test]
fn an_index_no_device_has_selects_every_device() {
    let mut i = Integration::new(SenseConfig::default());
    i.select_device(5);
    assert_eq!(i._set_multiple(&vec![0, 1]), DeviceTargets::All);
    i.select_device(-7);
    assert_eq!(i._set_multiple(&vec![0, 1]), DeviceTargets::All);
}

#[test]
fn cooldown_swallows_the_next_three_repeated_events() {
    let mut i = Integration::new(SenseConfig::default());
    let low_short = plan(20, 80);
    assert_eq!(i.event_to_integration(NiriEvent::WindowOpenedOrChanged, true), low_short);
    assert_eq!(i.skip_event_count(), 3);
    assert_eq!(i.event_to_integration(NiriEvent::WindowOpenedOrChanged, true), None);
    assert_eq!(i.event_to_integration(NiriEvent::WindowLayoutsChanged, true), None);
    assert_eq!(i.event_to_integration(NiriEvent::CastStartedOrChanged, true), None);
    assert_eq!(i.skip_event_count(), 0);
    assert_eq!(i.event_to_integration(NiriEvent::WindowOpenedOrChanged, true), low_short);
}

#[test]
fn other_events_neither_start_nor_use_up_the_cooldown() {
    let mut i = Integration::new(SenseConfig::default());
    assert_eq!(i.event_to_integration(NiriEvent::WorkspaceActivated, true), plan(20, 80));
    assert_eq!(i.skip_event_count(), 0);
    assert_eq!(i.event_to_integration(NiriEvent::WindowOpenedOrChanged, true), plan(20, 80));
    assert_eq!(i.event_to_integration(NiriEvent::WindowOpenedOrChanged, true), None);
    assert_eq!(i.skip_event_count(), 2);
    assert_eq!(i.event_to_integration(NiriEvent::WindowClosed, true), plan(80, 160));
    assert_eq!(i.skip_event_count(), 2);
}

#[test]
fn cooldown_switched_off() {
    let mut config = SenseConfig::default();
    config.events.repeated_event_prevention = false;
    let mut i = Integration::new(config);
    for _ in 0..5 {
        assert_eq!(i.event_to_integration(NiriEvent::WindowLayoutsChanged, true), plan(50, 80));
    }
}

#[test]
fn events_map_to_their_configuration_entries() {
    let mut config = SenseConfig::default();
    config.events.window_closed = on(SenseVibrationStrength::High, SenseVibrationLength::Medium);
    config.events.niri_config_reloaded = on(SenseVibrationStrength::Low, SenseVibrationLength::Short);
    config.events.overview_opened = on(SenseVibrationStrength::Medium, SenseVibrationLength::Long);
    config.events.overview_closed = on(SenseVibrationStrength::CustomB, SenseVibrationLength::CustomA);
    let events = config.events;
    assert_eq!(binding_for(&events, NiriEvent::WindowClosed), Some((events.window_closed, false)));
    assert_eq!(
        binding_for(&events, NiriEvent::OverviewOpenedOrClosed { is_open: true }),
        Some((events.overview_opened, false))
    );
    assert_eq!(
        binding_for(&events, NiriEvent::OverviewOpenedOrClosed { is_open: false }),
        Some((events.overview_closed, false))
    );
    assert_eq!(
        binding_for(&events, NiriEvent::WindowFocusChanged { id: Some(4) }),
        Some((events.window_focus_changed, false))
    );
    assert_eq!(binding_for(&events, NiriEvent::WindowFocusChanged { id: None }), None);
    assert_eq!(binding_for(&events, NiriEvent::Other), None);
    assert_eq!(binding_for(&events, NiriEvent::ConfigLoaded), Some((events.niri_config_reloaded, false)));
    assert_eq!(binding_for(&events, NiriEvent::CastStartedOrChanged), Some((events.cast_started_or_changed, true)));
    assert_eq!(binding_for(&events, NiriEvent::WorkspaceActivated), Some((events.workspace_focus_changed, false)));
    let mut i = Integration::new(config);
    assert_eq!(i.event_to_integration(NiriEvent::WindowClosed, true), plan(80, 160));
    assert_eq!(i.event_to_integration(NiriEvent::OverviewOpenedOrClosed { is_open: true }, true), plan(50, 240));
    assert_eq!(i.event_to_integration(NiriEvent::OverviewOpenedOrClosed { is_open: false }, true), plan(100, 320));
}

#[test]
fn switched_off_events_do_nothing() {
    let mut config = SenseConfig::default();
    config.events.window_layout_changed.state = false;
    let mut i = Integration::new(config);
    assert_eq!(i.event_to_integration(NiriEvent::ConfigLoaded, true), None);
    assert_eq!(i.event_to_integration(NiriEvent::WindowLayoutsChanged, true), None);
    assert_eq!(i.skip_event_count(), 0);
}

#[test]
fn unfocus_and_unknown_events_change_nothing() {
    let mut i = Integration::new(SenseConfig::default());
    assert_eq!(i.event_to_integration(NiriEvent::WindowFocusChanged { id: None }, true), None);
    assert_eq!(i.event_to_integration(NiriEvent::Other, true), None);
    assert_eq!(i.skip_event_count(), 0);
}

#[test]
fn paused_events_still_restart_the_cooldown() {
    let mut i = Integration::new(SenseConfig::default());
    i.toggle_pause();
    assert_eq!(i.event_to_integration(NiriEvent::CastStartedOrChanged, true), None);
    assert_eq!(i.skip_event_count(), 3);
    assert_eq!(i.event_to_integration(NiriEvent::WindowOpenedOrChanged, true), None);
    assert_eq!(i.skip_event_count(), 2);
}

#[test]
fn the_test_run() {
    let mut i = Integration::new(SenseConfig::default());
    assert_eq!(i.send_test(false), vec![]);
    let steps = i.send_test(true);
    assert_eq!(
        steps,
        vec![
            TestStep::Vibrate(S::Low, L::Short),
            TestStep::Vibrate(S::Medium, L::Short),
            TestStep::Vibrate(S::High, L::Short),
            TestStep::Pause(500),
            TestStep::Vibrate(S::Low, L::Medium),
            TestStep::Vibrate(S::Medium, L::Medium),
            TestStep::Vibrate(S::High, L::Medium),
            TestStep::Pause(500),
            TestStep::Vibrate(S::Low, L::Long),
            TestStep::Vibrate(S::Medium, L::Long),
            TestStep::Vibrate(S::High, L::Long),
        ]
    );
    i.toggle_pause();
    assert_eq!(i.send_test(true), vec![]);
}

#[test]
fn reload_replaces_only_the_configuration() {
    let mut i = Integration::new(SenseConfig::default());
    i.select_device(2);
    let mut config = SenseConfig::default();
    config.lengths.short = 5;
    i.reload_config(config);
    assert_eq!(i.config().lengths.short, 5);
    assert_eq!(i.selected_device(), 2);
}

#[test]
fn connect_address_uses_server_settings() {
    let mut config = SenseConfig::default();
    assert_eq!(Integration::new(SenseConfig::default()).connect_address(), "ws://127.0.0.1:12345");
    config.server.address = "example.org".to_string();
    config.server.port = 80;
    assert_eq!(Integration::new(config).connect_address(), "ws://example.org:80");
}

#[test]
fn exit_stops_the_event_loop_at_the_next_event() {
    let mut i = Integration::new(SenseConfig::default());
    assert_eq!(
        loop_stream_step(&mut i, Some(NiriEvent::WindowOpenedOrChanged), true),
        StreamStep::Continue(plan(20, 80))
    );
    assert_eq!(loop_stream_step(&mut i, None, true), StreamStep::Continue(None));
    i.exit();
    assert!(i.quit_requested());
    assert_eq!(loop_stream_step(&mut i, None, true), StreamStep::Continue(None));
    assert_eq!(loop_stream_step(&mut i, Some(NiriEvent::WindowClosed), true), StreamStep::Stop);
    assert_eq!(i.skip_event_count(), 3);
}
