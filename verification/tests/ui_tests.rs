use huemidity::config::{AppConfig, DashboardItem, Mapping};
use huemidity::hue::types::{Capability, CapSet, Group, GroupAction, Light, LightState, Scene};
use huemidity::hue::BridgeConnectionState;
use huemidity::messages::{BgMessage, GuiMessage};
use huemidity::midi::MidiEvent;
use huemidity::strmap::StrMap;
use huemidity::ui::{ports_refresh_due, DragDirection, StatusColour, Tab, TrayCommand, UiEffect, UiState, PORT_REFRESH_SECS};

fn s(x: &str) -> String {
    x.to_string()
}

fn ui(config: AppConfig) -> UiState {
    UiState::new(config, vec![s("Port A")], s("show"), s("quit")).0
}

fn light(name: &str, kind: &str, state: LightState) -> Light {
    Light { name: s(name), light_type: s(kind), state, modelid: String::new(), uniqueid: String::new() }
}

fn item(t: &str, id: &str) -> DashboardItem {
    DashboardItem { item_type: s(t), id: s(id) }
}

fn sent(e: &UiEffect) -> &BgMessage {
    match e {
        UiEffect::Send(m) => m,
        other => panic!("{:?}", other),
    }
}

#[test]
fn startup_messages() {
    let (u, e) = UiState::new(AppConfig::default(), vec![], s("a"), s("b"));
    assert_eq!(e.len(), 1);
    assert!(matches!(sent(&e[0]), BgMessage::StartAutoDiscovery));
    assert!(u.connection_state == BridgeConnectionState::Searching);
    assert_eq!(u.active_tab, Tab::Dashboard);
    assert_eq!(u.midi_status, "Disconnected");
    assert_eq!(u.mapping_creator.target_type, "light");
    assert_eq!(u.mapping_creator.action, "Brightness");
    assert!(u.mapping_creator.auto_on && !u.mapping_creator.invert);

    let mut c = AppConfig::default();
    c.bridge_ip = s("h");
    c.bridge_username = s("k");
    c.selected_device = s("Keys");
    let (u, e) = UiState::new(c, vec![], s("a"), s("b"));
    assert_eq!(e.len(), 2);
    assert!(matches!(sent(&e[0]), BgMessage::RefreshDevices));
    assert!(matches!(sent(&e[1]), BgMessage::ChangeMidiPort(p) if p == "Keys"));
    assert_eq!(u.manual_ip_input, "h");

    let mut c = AppConfig::default();
    c.bridge_ip = s("h");
    let (u, e) = UiState::new(c, vec![], s("a"), s("b"));
    assert!(e.is_empty());
    assert!(u.connection_state == BridgeConnectionState::NeedsLink { ip: s("h"), countdown: 30 });
}

#[test]
fn activity_log_keeps_ten_newest_first() {
    let mut u = ui(AppConfig::default());
    for i in 0..15u8 {
        let e = MidiEvent { device_name: s("d"), event_key: format!("CC {}", i), value: i };
        u.apply_message(GuiMessage::MidiActivity(e), format!("t{}", i));
    }
    assert_eq!(u.midi_log.len(), 10);
    assert_eq!(u.midi_log[0].event_key, "CC 14");
    assert_eq!(u.midi_log[0].time, "t14");
    assert_eq!(u.midi_log[9].value, 5);
    assert_eq!(u.midi_status, "Live Input: Active");
}

#[test]
fn connection_messages() {
    let mut u = ui(AppConfig::default());
    let e = u.apply_message(GuiMessage::HueConnectionState(BridgeConnectionState::Connected { ip: s("i"), username: s("u") }), s("t"));
    assert_eq!(e.len(), 2);
    assert!(matches!(e[0], UiEffect::SaveConfig));
    assert!(matches!(sent(&e[1]), BgMessage::RefreshDevices));
    assert_eq!((u.config.bridge_ip.as_str(), u.config.bridge_username.as_str()), ("i", "u"));
    assert!(u.shows_main_app());
    let mut lights = StrMap::new();
    lights.insert(s("1"), light("A", "x", LightState::default()));
    u.apply_message(GuiMessage::DevicesRefreshed { lights, groups: StrMap::new(), scenes: StrMap::new() }, s("t"));
    assert_eq!(u.lights.len(), 1);
    let e = u.apply_message(GuiMessage::HueConnectionState(BridgeConnectionState::Idle), s("t"));
    assert!(e.is_empty());
    assert!(u.lights.is_empty());
    assert!(!u.shows_main_app());
    u.apply_message(GuiMessage::Error(s("boom")), s("t"));
    assert_eq!(u.midi_status, "Conflict: boom");
    u.apply_message(GuiMessage::MidiStatus(s("Live Input: Active")), s("t"));
    assert_eq!(u.midi_status, "Live Input: Active");
}

#[test]
fn onboarding_actions() {
    let mut u = ui(AppConfig::default());
    assert!(u.connect_clicked().is_empty());
    u.manual_ip_input = s("  192.168.1.5 \t");
    let e = u.connect_clicked();
    assert!(matches!(sent(&e[0]), BgMessage::ConnectManual(ip) if ip == "192.168.1.5"));
    u.enter_ip_manually();
    assert!(u.connection_state == BridgeConnectionState::Idle);
    let e = u.rediscover();
    assert!(matches!(sent(&e[0]), BgMessage::StartAutoDiscovery));
    assert!(u.connection_state == BridgeConnectionState::Searching);
}

#[test]
fn dashboard_widgets() {
    let mut c = AppConfig::default();
    c.dashboard_layout = vec![item("light", "1"), item("group", "2"), item("light", "9")];
    let mut u = ui(c);
    let mut lights = StrMap::new();
    lights.insert(s("1"), light("Desk", "x", LightState { on: Some(false), bri: Some(250), ..Default::default() }));
    let mut groups = StrMap::new();
    groups.insert(s("2"), Group { name: s("Office"), group_type: s("Room"), lights: vec![s("1")], action: GroupAction { on: Some(true), bri: Some(10), ..Default::default() } });
    u.lights = lights;
    u.groups = groups;
    assert_eq!(u.widget_name(&item("light", "1")), "Desk");
    assert_eq!(u.widget_name(&item("light", "9")), "Light 9");
    assert_eq!(u.widget_name(&item("group", "2")), "Office");
    assert_eq!(u.widget_name(&item("group", "5")), "Group 5");

    match u.wheel_step(&item("light", "1"), true).unwrap() {
        BgMessage::SetLightState { light_id, state } => {
            assert_eq!(light_id, "1");
            assert_eq!((state.bri, state.on), (Some(254), Some(true)));
        },
        other => panic!("{:?}", other),
    }
    match u.wheel_step(&item("group", "2"), false).unwrap() {
        BgMessage::SetGroupAction { group_id, action } => {
            assert_eq!(group_id, "2");
            assert_eq!((action.bri, action.on), (Some(0), None));
        },
        other => panic!("{:?}", other),
    }
    assert!(u.wheel_step(&item("light", "9"), true).is_none());
    match u.double_clicked(&item("group", "2")).unwrap() {
        BgMessage::SetGroupAction { action, .. } => assert_eq!(action.on, Some(false)),
        other => panic!("{:?}", other),
    }
    match u.double_clicked(&item("light", "1")).unwrap() {
        BgMessage::SetLightState { state, .. } => assert_eq!(state.on, Some(true)),
        other => panic!("{:?}", other),
    }
    assert!(matches!(UiState::power_toggled(&item("light", "1"), true), Some(BgMessage::SetLightState { .. })));
    assert!(UiState::brightness_changed(&item("scene", "1"), 3).is_none());

    assert_eq!(u.drag_swap(0, DragDirection::Down), Some((0, 1)));
    assert_eq!(u.drag_swap(2, DragDirection::Down), None);
    assert_eq!(u.drag_swap(0, DragDirection::Up), None);
    assert_eq!(u.drag_swap(2, DragDirection::Up), Some((2, 1)));
    assert_eq!(u.drag_swap(1, DragDirection::Still), None);
    u.swap_widgets(0, 2);
    assert_eq!(u.config.dashboard_layout[0].id, "9");
    assert_eq!(u.config.dashboard_layout[2].id, "1");
    let e = u.remove_widget(1);
    assert!(matches!(e[0], UiEffect::SaveConfig));
    assert_eq!(u.config.dashboard_layout.len(), 2);
    assert_eq!(u.config.dashboard_layout[1].id, "1");
}

#[test]
fn port_selection_and_status() {
    let mut u = ui(AppConfig::default());
    let e = u.select_port(s("Keys"));
    assert_eq!(e.len(), 2);
    assert!(matches!(sent(&e[1]), BgMessage::ChangeMidiPort(p) if p == "Keys"));
    assert_eq!(u.midi_status, "Connecting...");
    assert_eq!(u.status_colour(), StatusColour::Yellow);
    assert!(u.select_port(s("Keys")).is_empty());
    u.midi_status = s("Live Input: Active");
    assert_eq!(u.status_colour(), StatusColour::Green);
    u.midi_status = s("Disconnected");
    assert_eq!(u.status_colour(), StatusColour::Gray);
}

#[test]
fn mapping_dialog_save_edit_delete() {
    let mut c = AppConfig::default();
    c.selected_device = s("Pad");
    let mut u = ui(c);
    u.bind_event(s("CC 3"));
    assert!(u.mapping_creator.is_open);
    assert!(u.save_mapping().is_empty());
    u.mapping_creator.target_id = s("7");
    u.mapping_creator.action = s("Hue");
    u.mapping_creator.invert = true;
    let e = u.save_mapping();
    assert!(matches!(e[0], UiEffect::SaveConfig));
    assert!(!u.mapping_creator.is_open);
    let m = u.config.mapping_for(&s("Pad"), &s("CC 3")).unwrap().clone();
    assert_eq!((m.target_id.as_str(), m.action.as_str(), m.invert), ("7", "Hue", true));

    u.mapping_creator.target_id = String::new();
    u.mapping_creator.action = s("Brightness");
    u.edit_mapping(&s("CC 3"));
    assert!(u.mapping_creator.is_open);
    assert_eq!(u.mapping_creator.target_id, "7");
    assert_eq!(u.mapping_creator.action, "Hue");
    assert!(u.mapping_creator.invert);
    assert_eq!(u.mapping_target_name(&m), "Light 7");

    let e = u.delete_mapping(&s("CC 3"));
    assert_eq!(e.len(), 1);
    assert!(u.config.mapping_for(&s("Pad"), &s("CC 3")).is_none());
    u.config.selected_device = s("Other");
    assert!(u.delete_mapping(&s("CC 3")).is_empty());
    u.ensure_device_table();
    assert!(u.config.mappings.contains_key(&s("Other")));
}

#[test]
fn dialog_target_labels_and_actions() {
    let mut u = ui(AppConfig::default());
    assert_eq!(u.target_label(), "Choose Device/Scene...");
    u.mapping_creator.target_id = s("1");
    assert_eq!(u.target_label(), "Unknown Light");
    u.mapping_creator.target_type = s("scene");
    assert_eq!(u.target_label(), "Unknown Scene");
    let mut scenes = StrMap::new();
    scenes.insert(s("1"), Scene { name: s("Relax"), lights: None, group: None });
    u.scenes = scenes;
    assert_eq!(u.target_label(), "Relax");
    assert_eq!(u.offered_actions(&CapSet::full()), vec![s("Recall Scene")]);
    u.open_action_list();
    assert_eq!(u.mapping_creator.action, "Recall Scene");
    assert!(!u.shows_adjust_options());

    u.mapping_creator.target_type = s("light");
    u.mapping_creator.action = s("On/Off (Latch)");
    assert!(!u.shows_adjust_options());
    u.mapping_creator.action = s("Brightness");
    assert!(u.shows_adjust_options());
    let mut caps = CapSet::empty();
    caps.insert(Capability::Dim);
    caps.insert(Capability::Color);
    assert_eq!(
        u.offered_actions(&caps),
        vec![s("On/Off (Latch)"), s("On/Off (Momentary)"), s("Brightness"), s("Hue"), s("Saturation"),
            s("Red Component"), s("Green Component"), s("Blue Component")]
    );
}

#[test]
fn dialog_capabilities_of_targets() {
    let mut u = ui(AppConfig::default());
    let mut lights = StrMap::new();
    lights.insert(s("1"), light("A", "Dimmable light", LightState::default()));
    lights.insert(s("2"), light("B", "x", LightState { ct: Some(300), ..Default::default() }));
    u.lights = lights;
    let mut groups = StrMap::new();
    groups.insert(s("g"), Group { name: s("G"), group_type: s("Room"), lights: vec![s("1"), s("2"), s("404")], action: GroupAction::default() });
    groups.insert(s("e"), Group { name: s("E"), group_type: s("Room"), lights: vec![s("404")], action: GroupAction::default() });
    u.groups = groups;
    let caps = |c: CapSet| (c.contains(Capability::Dim), c.contains(Capability::Ct), c.contains(Capability::Color));
    u.mapping_creator.target_id = s("1");
    assert_eq!(caps(u.creator_capabilities()), (true, false, false));
    u.mapping_creator.target_id = s("77");
    assert_eq!(caps(u.creator_capabilities()), (false, false, false));
    u.mapping_creator.target_type = s("group");
    u.mapping_creator.target_id = s("g");
    assert_eq!(caps(u.creator_capabilities()), (true, true, false));
    u.mapping_creator.target_id = s("e");
    assert_eq!(caps(u.creator_capabilities()), (true, true, true));
    u.mapping_creator.target_type = s("scene");
    assert_eq!(caps(u.creator_capabilities()), (false, false, false));
}

#[test]
fn add_widgets_dialog() {
    let mut c = AppConfig::default();
    c.dashboard_layout = vec![item("light", "1")];
    let mut u = ui(c);
    u.open_add_widgets();
    assert!(u.add_widgets.is_open);
    assert!(UiState::matches_search(&s("Kitchen Ceiling"), &s("CEIL")));
    assert!(UiState::matches_search(&s("Kitchen"), &s("")));
    assert!(!UiState::matches_search(&s("Kitchen"), &s("bed")));
    assert!(u.on_dashboard(&s("1")));
    assert!(!u.on_dashboard(&s("2")));
    u.select_light(s("2"), true);
    u.select_light(s("3"), true);
    u.select_light(s("3"), false);
    u.select_group(s("g"), true);
    let e = u.add_selected_widgets();
    assert!(matches!(e[0], UiEffect::SaveConfig));
    assert!(!u.add_widgets.is_open);
    let ids: Vec<(&str, &str)> = u.config.dashboard_layout.iter().map(|i| (i.item_type.as_str(), i.id.as_str())).collect();
    assert_eq!(ids, vec![("light", "1"), ("light", "2"), ("group", "g")]);
}

#[test]
fn settings_and_tray() {
    let mut c = AppConfig::default();
    c.bridge_ip = s("h");
    c.bridge_username = s("k");
    let mut u = ui(c);
    let e = u.autostart_toggled(true);
    assert!(u.config.autostart);
    assert_eq!(e.len(), 1);
    let e = u.forget_bridge();
    assert!(matches!(sent(&e[0]), BgMessage::ForgetBridge));
    assert!(matches!(e[1], UiEffect::SaveConfig));
    assert_eq!(u.config.bridge_ip, "");
    assert!(u.connection_state == BridgeConnectionState::Idle);
    assert_eq!(u.tray_command(&s("show")), TrayCommand::ShowWindow);
    assert_eq!(u.tray_command(&s("quit")), TrayCommand::Quit);
    assert_eq!(u.tray_command(&s("other")), TrayCommand::Nothing);
}

#[test]
fn mapping_names_of_groups_and_scenes() {
    let u = ui(AppConfig::default());
    let m = Mapping { target_type: s("group"), target_id: s("4"), action: s("Brightness"), invert: false, auto_on: true };
    assert_eq!(u.mapping_target_name(&m), "Group 4");
    let m = Mapping { target_type: s("scene"), target_id: s("x"), action: s("Recall Scene"), invert: false, auto_on: true };
    assert_eq!(u.mapping_target_name(&m), "Scene x");
}

#[test]
fn connect_trims_unicode_white_space() {
    let mut u = ui(AppConfig::default());
    u.manual_ip_input = s("\u{3000}10.0.0.8\u{a0}");
    let e = u.connect_clicked();
    assert!(matches!(sent(&e[0]), BgMessage::ConnectManual(ip) if ip == "10.0.0.8"));
    u.manual_ip_input = s("   ");
    let e = u.connect_clicked();
    assert!(matches!(sent(&e[0]), BgMessage::ConnectManual(ip) if ip.is_empty()));
}

#[test]
fn midi_ports_refresh_every_five_seconds() {
    assert_eq!(PORT_REFRESH_SECS, 5);
    assert!(!ports_refresh_due(0));
    assert!(!ports_refresh_due(4));
    assert!(ports_refresh_due(5));
    assert!(ports_refresh_due(6));
}
