use huemidity::body::StateBody;
use huemidity::config::{AppConfig, Mapping};
use huemidity::hue::types::{Group, GroupAction, Light, LightState, Scene};
use huemidity::hue::BridgeConnectionState;
use huemidity::mapping::ColorComponent;
use huemidity::messages::{BgMessage, GuiMessage};
use huemidity::midi::MidiEvent;
use huemidity::strmap::StrMap;
use huemidity::worker::{BridgeWorker, FetchKind, WorkerAction, PAIRING_TICK_NS, REFRESH_PERIOD_NS, SEND_TICK_NS};

fn s(x: &str) -> String {
    x.to_string()
}

fn connected_config() -> AppConfig {
    let mut c = AppConfig::default();
    c.bridge_ip = s("10.0.0.2");
    c.bridge_username = s("key");
    c
}

fn light(on: Option<bool>, bri: Option<u8>) -> Light {
    Light {
        name: s("Lamp"),
        light_type: s("Dimmable light"),
        state: LightState { on, bri, ..Default::default() },
        modelid: String::new(),
        uniqueid: String::new(),
    }
}

fn body_on(on: bool) -> StateBody {
    StateBody { on: Some(on), ..Default::default() }
}

fn body_bri(b: u8) -> StateBody {
    StateBody { bri: Some(b), ..Default::default() }
}

fn with_mapping(mut c: AppConfig, device: &str, key: &str, m: Mapping) -> AppConfig {
    let mut table = StrMap::new();
    table.insert(s(key), m);
    c.mappings.insert(s(device), table);
    c
}

fn mapping(target_type: &str, id: &str, action: &str, invert: bool, auto_on: bool) -> Mapping {
    Mapping { target_type: s(target_type), target_id: s(id), action: s(action), invert, auto_on }
}

fn event(device: &str, key: &str, value: u8) -> MidiEvent {
    MidiEvent { device_name: s(device), event_key: s(key), value }
}

fn shown_state(a: &WorkerAction) -> BridgeConnectionState {
    match a {
        WorkerAction::Gui(GuiMessage::HueConnectionState(st)) => st.clone(),
        other => panic!("not a state notification: {:?}", other),
    }
}

#[test]
fn new_worker_starts_from_config() {
    let w = BridgeWorker::new(connected_config());
    assert!(w.connection_state == BridgeConnectionState::Connected { ip: s("10.0.0.2"), username: s("key") });
    let w = BridgeWorker::new(AppConfig::default());
    assert!(w.connection_state == BridgeConnectionState::Searching);
    assert!(w.lights.is_empty() && w.pending_lights.is_empty());
}

#[test]
fn pairing_counts_down_and_registers_every_third_second() {
    let mut c = AppConfig::default();
    c.bridge_ip = s("1.1.1.1");
    let mut w = BridgeWorker::new(c);
    let a = w.pairing_tick();
    assert_eq!(a.len(), 1);
    assert!(shown_state(&a[0]) == BridgeConnectionState::NeedsLink { ip: s("1.1.1.1"), countdown: 29 });
    w.pairing_tick();
    let a = w.pairing_tick();
    match &a[0] {
        WorkerAction::Register { ip, countdown } => {
            assert_eq!(ip, "1.1.1.1");
            assert_eq!(*countdown, 27);
        },
        other => panic!("{:?}", other),
    }
    assert!(w.connection_state == BridgeConnectionState::NeedsLink { ip: s("1.1.1.1"), countdown: 28 });
    let a = w.registration_result(s("1.1.1.1"), 27, Ok(None));
    assert!(shown_state(&a[0]) == BridgeConnectionState::NeedsLink { ip: s("1.1.1.1"), countdown: 27 });
}

#[test]
fn pairing_gives_up_at_zero() {
    let mut w = BridgeWorker::new(AppConfig::default());
    w.connection_state = BridgeConnectionState::NeedsLink { ip: s("h"), countdown: 0 };
    let a = w.pairing_tick();
    assert!(w.connection_state == BridgeConnectionState::Idle);
    assert!(shown_state(&a[0]) == BridgeConnectionState::Idle);
    let a = w.pairing_tick();
    assert!(a.is_empty());
}

#[test]
fn registration_success_stores_credentials() {
    let mut w = BridgeWorker::new(AppConfig::default());
    w.connection_state = BridgeConnectionState::NeedsLink { ip: s("h"), countdown: 3 };
    let a = w.registration_result(s("h"), 3, Ok(Some(s("k"))));
    assert_eq!(a.len(), 2);
    assert!(matches!(a[0], WorkerAction::SaveConfig));
    assert!(shown_state(&a[1]) == BridgeConnectionState::Connected { ip: s("h"), username: s("k") });
    assert_eq!(w.config.bridge_ip, "h");
    assert_eq!(w.config.bridge_username, "k");
}

#[test]
fn registration_refusal_is_an_error_state() {
    let mut w = BridgeWorker::new(AppConfig::default());
    let a = w.registration_result(s("h"), 3, Err(s("unauthorized")));
    assert!(w.connection_state == BridgeConnectionState::Error(s("unauthorized")));
    assert_eq!(a.len(), 1);
}

#[test]
fn discovery_takes_first_bridge() {
    let mut w = BridgeWorker::new(AppConfig::default());
    let a = w.start_discovery();
    assert!(matches!(a[1], WorkerAction::Discover));
    let a = w.discovery_result(Some(vec![s("192.168.0.9"), s("192.168.0.10")]));
    assert!(matches!(a[0], WorkerAction::SaveConfig));
    assert!(w.connection_state == BridgeConnectionState::NeedsLink { ip: s("192.168.0.9"), countdown: 30 });
    assert_eq!(w.config.bridge_ip, "192.168.0.9");
    let a = w.discovery_result(Some(vec![]));
    assert_eq!(a.len(), 1);
    assert!(w.connection_state == BridgeConnectionState::Idle);
    w.discovery_result(None);
    assert!(w.connection_state == BridgeConnectionState::Idle);
}

#[test]
fn manual_connect_and_forget() {
    let mut w = BridgeWorker::new(connected_config());
    w.queue_light(&s("1"), body_on(true));
    let a = w.connect_manual(s("5.5.5.5"));
    assert!(matches!(a[0], WorkerAction::SaveConfig));
    assert!(w.connection_state == BridgeConnectionState::NeedsLink { ip: s("5.5.5.5"), countdown: 30 });
    let a = w.forget_bridge();
    assert_eq!(a.len(), 2);
    assert!(w.connection_state == BridgeConnectionState::Idle);
    assert_eq!(w.config.bridge_ip, "");
    assert_eq!(w.config.bridge_username, "");
    assert!(w.pending_lights.is_empty());
}

#[test]
fn refresh_only_when_connected() {
    let w = BridgeWorker::new(AppConfig::default());
    assert!(w.request_devices(FetchKind::Requested).is_empty());
    let w = BridgeWorker::new(connected_config());
    let a = w.request_devices(FetchKind::Periodic);
    assert!(matches!(&a[0], WorkerAction::FetchDevices { kind: FetchKind::Periodic, .. }));
}

#[test]
fn failed_fetch_keeps_or_empties_cache() {
    let mut w = BridgeWorker::new(connected_config());
    let mut lights = StrMap::new();
    lights.insert(s("1"), light(Some(true), Some(3)));
    w.devices_fetched(FetchKind::Periodic, Some(lights), None, None);
    assert_eq!(w.lights.len(), 1);
    w.devices_fetched(FetchKind::Periodic, None, None, None);
    assert_eq!(w.lights.len(), 1);
    let a = w.devices_fetched(FetchKind::Requested, None, None, None);
    assert!(w.lights.is_empty());
    assert!(matches!(a[0], WorkerAction::BroadcastDevices));
}

#[test]
fn queued_commands_merge_and_update_cache() {
    let mut w = BridgeWorker::new(connected_config());
    let mut lights = StrMap::new();
    lights.insert(s("1"), light(Some(false), Some(3)));
    w.devices_fetched(FetchKind::Periodic, Some(lights), None, None);
    w.handle_message(BgMessage::SetLightState { light_id: s("1"), state: body_on(true) });
    w.handle_message(BgMessage::SetLightState { light_id: s("1"), state: body_bri(99) });
    let cached = w.lights.get(&s("1")).unwrap();
    assert_eq!((cached.state.on, cached.state.bri), (Some(true), Some(99)));
    let q = w.pending_lights.get(&s("1")).unwrap();
    assert_eq!((q.on, q.bri), (Some(true), Some(99)));
}

#[test]
fn throttle_spaces_commands_per_light_and_group() {
    let mut w = BridgeWorker::new(connected_config());
    w.queue_light(&s("1"), body_on(true));
    w.queue_group(&s("g"), body_on(false));
    let a = w.throttle_tick(1_000_000_000);
    assert_eq!(a.len(), 2);
    assert!(matches!(&a[0], WorkerAction::SendLightState { light_id, .. } if light_id == "1"));
    assert!(matches!(&a[1], WorkerAction::SendGroupAction { group_id, .. } if group_id == "g"));
    assert!(w.pending_lights.is_empty() && w.pending_groups.is_empty());
    w.queue_light(&s("1"), body_bri(5));
    w.queue_group(&s("g"), body_bri(6));
    let a = w.throttle_tick(1_050_000_000);
    assert!(a.is_empty());
    let a = w.throttle_tick(1_100_000_000);
    assert_eq!(a.len(), 1);
    assert!(matches!(&a[0], WorkerAction::SendLightState { body, .. } if body.bri == Some(5)));
    let a = w.throttle_tick(1_499_999_999);
    assert!(a.is_empty());
    let a = w.throttle_tick(1_500_000_000);
    assert_eq!(a.len(), 1);
    assert!(matches!(&a[0], WorkerAction::SendGroupAction { body, .. } if body.bri == Some(6)));
}

#[test]
fn throttle_does_nothing_while_disconnected() {
    let mut w = BridgeWorker::new(AppConfig::default());
    w.queue_light(&s("1"), body_on(true));
    assert!(w.throttle_tick(5_000_000_000).is_empty());
    assert_eq!(w.pending_lights.len(), 1);
}

#[test]
fn midi_brightness_mapping_dispatches_to_light() {
    let c = with_mapping(connected_config(), "Pad", "CC 7", mapping("light", "1", "Brightness", false, true));
    let mut w = BridgeWorker::new(c);
    let a = w.midi_input(event("Pad", "CC 7", 64));
    assert_eq!(a.len(), 2);
    assert!(matches!(&a[0], WorkerAction::Gui(GuiMessage::MidiActivity(e)) if e.value == 64));
    assert!(matches!(a[1], WorkerAction::BroadcastDevices));
    let q = w.pending_lights.get(&s("1")).unwrap();
    assert_eq!((q.on, q.bri), (Some(true), Some(128)));
}

#[test]
fn midi_without_mapping_or_connection_only_reports() {
    let c = with_mapping(AppConfig::default(), "Pad", "CC 7", mapping("light", "1", "Brightness", false, true));
    let mut w = BridgeWorker::new(c);
    assert_eq!(w.midi_input(event("Pad", "CC 7", 64)).len(), 1);
    let mut w = BridgeWorker::new(connected_config());
    assert_eq!(w.midi_input(event("Pad", "CC 8", 64)).len(), 1);
    assert!(w.pending_lights.is_empty());
}

#[test]
fn midi_latch_on_note_toggles_group() {
    let c = with_mapping(connected_config(), "Keys", "Note 60", mapping("group", "3", "On/Off (Latch)", false, false));
    let mut w = BridgeWorker::new(c);
    let mut groups = StrMap::new();
    groups.insert(
        s("3"),
        Group { name: s("Room"), group_type: s("Room"), lights: vec![], action: GroupAction { on: Some(true), ..Default::default() } },
    );
    w.devices_fetched(FetchKind::Periodic, None, Some(groups), None);
    w.midi_input(event("Keys", "Note 60", 100));
    assert_eq!(w.pending_groups.get(&s("3")).unwrap().on, Some(false));
    assert_eq!(w.groups.get(&s("3")).unwrap().action.on, Some(false));
    let a = w.midi_input(event("Keys", "Note 60", 0));
    assert_eq!(a.len(), 1);
}

#[test]
fn midi_scene_recall_without_cached_group_goes_to_group_zero() {
    let c = with_mapping(connected_config(), "Pad", "Note 1", mapping("scene", "abc", "Recall Scene", false, false));
    let mut w = BridgeWorker::new(c);
    let a = w.midi_input(event("Pad", "Note 1", 1));
    assert_eq!(a.len(), 2);
    match &a[1] {
        WorkerAction::SendGroupAction { group_id, body, ip, username } => {
            assert_eq!(group_id, "0");
            assert_eq!(body.scene.as_deref(), Some("abc"));
            assert_eq!((ip.as_str(), username.as_str()), ("10.0.0.2", "key"));
        },
        other => panic!("{:?}", other),
    }
}

#[test]
fn midi_scene_recall_goes_to_the_scene_group() {
    let c = with_mapping(connected_config(), "Pad", "CC 7", mapping("scene", "abc", "Recall Scene", false, false));
    let mut w = BridgeWorker::new(c);
    let mut scenes = StrMap::new();
    scenes.insert(s("abc"), Scene { name: s("Evening"), lights: None, group: Some(s("5")) });
    scenes.insert(s("def"), Scene { name: s("Night"), lights: None, group: None });
    w.devices_fetched(FetchKind::Requested, None, None, Some(scenes));
    assert_eq!(w.scene_group(&s("abc")), "5");
    assert_eq!(w.scene_group(&s("def")), "0");
    assert_eq!(w.scene_group(&s("zzz")), "0");
    let a = w.midi_input(event("Pad", "CC 7", 100));
    assert_eq!(a.len(), 2);
    match &a[1] {
        WorkerAction::SendGroupAction { group_id, body, .. } => {
            assert_eq!(group_id, "5");
            assert_eq!(body.scene.as_deref(), Some("abc"));
        },
        other => panic!("{:?}", other),
    }
    let a = w.midi_input(event("Pad", "CC 7", 63));
    assert_eq!(a.len(), 1);
}

#[test]
fn midi_colour_component_asks_for_mix() {
    let c = with_mapping(connected_config(), "Pad", "CC 1", mapping("light", "1", "Red Component", true, true));
    let mut w = BridgeWorker::new(c);
    let mut lights = StrMap::new();
    let mut l = light(Some(true), Some(100));
    l.state.hue = Some(2000);
    lights.insert(s("1"), l);
    w.devices_fetched(FetchKind::Periodic, Some(lights), None, None);
    let a = w.midi_input(event("Pad", "CC 1", 10));
    match &a[1] {
        WorkerAction::MixColor { component, value, invert, current, .. } => {
            assert_eq!(*component, ColorComponent::Red);
            assert_eq!(*value, 10);
            assert!(*invert);
            assert_eq!(*current, Some((2000, 0, 100)));
        },
        other => panic!("{:?}", other),
    }
    let a = w.colour_mixed(&s("light"), &s("1"), 10, 20, 30, true);
    assert!(matches!(a[0], WorkerAction::BroadcastDevices));
    let q = w.pending_lights.get(&s("1")).unwrap();
    assert_eq!((q.hue, q.sat, q.bri, q.on), (Some(10), Some(20), Some(30), Some(true)));
}

#[test]
fn underflow_is_detected_before_handling() {
    let c = with_mapping(connected_config(), "Pad", "CC 1", mapping("light", "1", "Brightness", true, true));
    let w = BridgeWorker::new(c);
    assert!(w.event_would_underflow(&event("Pad", "CC 1", 200)));
    assert!(!w.event_would_underflow(&event("Pad", "CC 1", 127)));
    assert!(!w.event_would_underflow(&event("Pad", "CC 2", 200)));
}

#[test]
fn midi_port_outcomes() {
    let mut w = BridgeWorker::new(AppConfig::default());
    let a = w.handle_message(BgMessage::ChangeMidiPort(s("Keys")));
    assert!(matches!(&a[0], WorkerAction::OpenMidiPort(p) if p == "Keys"));
    let a = w.midi_port_opened(s("Keys"));
    assert_eq!(w.config.selected_device, "Keys");
    assert!(matches!(&a[1], WorkerAction::Gui(GuiMessage::MidiStatus(st)) if st == "Live Input: Active"));
    let a = w.midi_port_failed(s("busy"));
    assert!(matches!(&a[0], WorkerAction::Gui(GuiMessage::MidiStatus(st)) if st == "Conflict: Device Busy"));
    assert!(matches!(&a[1], WorkerAction::Gui(GuiMessage::Error(e)) if e == "busy"));
}

#[test]
fn recall_message_and_update_config() {
    let mut w = BridgeWorker::new(connected_config());
    let a = w.handle_message(BgMessage::RecallScene { group_id: s("4"), scene_id: s("sc") });
    assert!(matches!(&a[0], WorkerAction::SendGroupAction { group_id, body, .. } if group_id == "4" && body.scene.as_deref() == Some("sc")));
    let mut c = AppConfig::default();
    c.selected_device = s("Other");
    w.handle_message(BgMessage::UpdateConfig(c));
    assert_eq!(w.config.selected_device, "Other");
}

#[test]
fn light_sends_stay_spaced_over_a_run_until_the_bridge_is_forgotten() {
    let mut w = BridgeWorker::new(connected_config());
    let mut sent_at: Vec<u64> = Vec::new();
    let mut t: u64 = 2_000_000_000;
    for step in 0..40u64 {
        w.handle_message(BgMessage::SetLightState { light_id: s("1"), state: body_bri((step % 200) as u8) });
        w.handle_message(BgMessage::RecallScene { group_id: s("g"), scene_id: s("sc") });
        for a in w.throttle_tick(t) {
            if let WorkerAction::SendLightState { light_id, ip, username, .. } = a {
                assert_eq!(light_id, "1");
                assert_eq!((ip.as_str(), username.as_str()), ("10.0.0.2", "key"));
                sent_at.push(t);
            }
        }
        t += 30_000_000;
    }
    assert!(sent_at.len() > 1);
    for pair in sent_at.windows(2) {
        assert!(pair[1] - pair[0] >= 100_000_000);
    }
    // Forgetting the bridge clears the send times: after reconnecting, the
    // next command goes out at once.
    let last = *sent_at.last().unwrap();
    w.forget_bridge();
    w.registration_result(s("10.0.0.2"), 0, Ok(Some(s("key"))));
    w.queue_light(&s("1"), body_on(true));
    let a = w.throttle_tick(last + 1);
    assert_eq!(a.len(), 1);
    assert!(matches!(&a[0], WorkerAction::SendLightState { light_id, .. } if light_id == "1"));
}

#[test]
fn reconnecting_after_a_forget_takes_three_pairing_ticks() {
    assert_eq!((PAIRING_TICK_NS, REFRESH_PERIOD_NS, SEND_TICK_NS), (1_000_000_000, 10_000_000_000, 20_000_000));
    let mut w = BridgeWorker::new(connected_config());
    w.forget_bridge();
    w.connect_manual(s("10.0.0.2"));
    assert!(!matches!(w.pairing_tick()[0], WorkerAction::Register { .. }));
    assert!(!matches!(w.pairing_tick()[0], WorkerAction::Register { .. }));
    let a = w.pairing_tick();
    assert!(matches!(&a[0], WorkerAction::Register { countdown: 27, .. }));
}
