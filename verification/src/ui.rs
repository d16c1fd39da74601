//! The decisions of the user interface: what it shows, and what it changes
//! and sends when the user acts or the worker reports.

use vstd::prelude::*;
use crate::body::StateBody;
use crate::config::{AppConfig, DashboardItem, Mapping};
use crate::hue::{BridgeConnectionState, initial_connection_state, startup_connection_state};
use crate::hue::types::{Light, Group, Scene, CapSet, Capability, light_capabilities};
use crate::messages::{BgMessage, GuiMessage};
use crate::strmap::{StrMap, StrSet};
use crate::text::{has_substring, has_prefix, contains_str, starts_with, is_trim_of, trim, lowercase, to_lowercase, is_ascii_text, ascii_lowercase};

verus! {

/// The tabs of the main window.
#[derive(Debug, Clone, Copy, PartialEq, Eq, Structural)]
pub enum Tab {
    Dashboard,
    MidiMapping,
    Settings,
}

/// One line of the MIDI activity log.
#[derive(Debug, Clone)]
pub struct LogEntry {
    pub time: String,
    pub event_key: String,
    pub value: u8,
}

/// The dialog that creates or edits a mapping.
#[derive(Debug, Clone)]
pub struct MappingCreatorState {
    pub is_open: bool,
    pub event_key: String,
    /// `light`, `group` or `scene`.
    pub target_type: String,
    pub target_id: String,
    pub action: String,
    pub invert: bool,
    pub auto_on: bool,
}

/// The dialog that adds widgets to the dashboard.
#[derive(Debug, Clone)]
pub struct AddWidgetsState {
    pub is_open: bool,
    pub search_query: String,
    pub selected_lights: StrSet,
    pub selected_groups: StrSet,
}

/// What the user interface does besides changing its own state.
#[derive(Debug, Clone)]
pub enum UiEffect {
    /// Write the configuration to disk.
    SaveConfig,
    /// Send this message to the worker.
    Send(BgMessage),
}

/// The state of the user interface.
#[derive(Debug)]
pub struct UiState {
    pub config: AppConfig,
    pub connection_state: BridgeConnectionState,
    pub active_tab: Tab,
    pub lights: StrMap<Light>,
    pub groups: StrMap<Group>,
    pub scenes: StrMap<Scene>,
    pub midi_ports: Vec<String>,
    /// Newest first, at most ten entries.
    pub midi_log: Vec<LogEntry>,
    pub midi_status: String,
    pub mapping_creator: MappingCreatorState,
    pub add_widgets: AddWidgetsState,
    pub tray_show_hide_id: String,
    pub tray_quit_id: String,
    pub manual_ip_input: String,
}

/// Number of entries that the activity log keeps.
pub const LOG_CAPACITY: usize = 10;

/// Seconds between two refreshes of the list of MIDI input ports.
pub const PORT_REFRESH_SECS: u64 = 5;

/// Whether the list of MIDI input ports is due for a refresh, `elapsed_secs`
/// whole seconds after the last one.
pub fn ports_refresh_due(elapsed_secs: u64) -> (due: bool)
    ensures
        due == (elapsed_secs >= PORT_REFRESH_SECS),
{
    elapsed_secs >= PORT_REFRESH_SECS
}

/// The messages that the user interface sends when it starts: a device
/// refresh when connected, a discovery when no bridge address is known, and
/// the selected MIDI device, if any, to open.
pub open spec fn startup_effects(config: AppConfig, effects: Seq<UiEffect>) -> bool {
    let first: Seq<UiEffect> = if config.bridge_ip@.len() > 0 && config.bridge_username@.len() > 0 {
        seq![UiEffect::Send(BgMessage::RefreshDevices)]
    } else if config.bridge_ip@.len() > 0 {
        Seq::empty()
    } else {
        seq![UiEffect::Send(BgMessage::StartAutoDiscovery)]
    };
    if config.selected_device@.len() > 0 {
        effects =~= first.push(UiEffect::Send(BgMessage::ChangeMidiPort(config.selected_device)))
    } else {
        effects =~= first
    }
}

/// The activity log after an entry: the entry first, then the older ones,
/// at most [`LOG_CAPACITY`] in all.
pub open spec fn log_after(log: Seq<LogEntry>, e: LogEntry) -> Seq<LogEntry> {
    let l = seq![e] + log;
    if l.len() > LOG_CAPACITY {
        l.take(LOG_CAPACITY as int)
    } else {
        l
    }
}

/// What a message from the worker does to the user interface: MIDI activity
/// is logged (with the time `time`) and marks the input live; a connection
/// state is taken over, and when connected its address and key are stored and
/// saved and the devices requested, while an idle state empties the device
/// caches; refreshed devices replace the caches; a status replaces the status;
/// an error shows as a conflict.
pub open spec fn gui_message_post(old: UiState, new: UiState, msg: GuiMessage, time: String, effects: Seq<UiEffect>) -> bool {
    match msg {
        GuiMessage::MidiActivity(e) => {
            &&& new == UiState {
                midi_log: new.midi_log,
                midi_status: new.midi_status,
                ..old
            }
            &&& new.midi_log@ == log_after(old.midi_log@, LogEntry { time, event_key: e.event_key, value: e.value })
            &&& new.midi_status@ == "Live Input: Active"@
            &&& effects =~= Seq::<UiEffect>::empty()
        },
        GuiMessage::HueConnectionState(s) => match s {
            BridgeConnectionState::Connected { ip, username } => {
                &&& new == UiState {
                    connection_state: s,
                    config: AppConfig { bridge_ip: ip, bridge_username: username, ..old.config },
                    ..old
                }
                &&& effects =~= seq![UiEffect::SaveConfig, UiEffect::Send(BgMessage::RefreshDevices)]
            },
            BridgeConnectionState::Idle => {
                &&& new == UiState {
                    connection_state: s,
                    lights: new.lights,
                    groups: new.groups,
                    scenes: new.scenes,
                    ..old
                }
                &&& new.lights@ == Map::<Seq<char>, Light>::empty()
                &&& new.groups@ == Map::<Seq<char>, Group>::empty()
                &&& new.scenes@ == Map::<Seq<char>, Scene>::empty()
                &&& effects =~= Seq::<UiEffect>::empty()
            },
            _ => new == UiState { connection_state: s, ..old } && effects =~= Seq::<UiEffect>::empty(),
        },
        GuiMessage::DevicesRefreshed { lights, groups, scenes } => new == UiState { lights, groups, scenes, ..old }
            && effects =~= Seq::<UiEffect>::empty(),
        GuiMessage::MidiStatus(st) => new == UiState { midi_status: st, ..old } && effects =~= Seq::<UiEffect>::empty(),
        GuiMessage::Error(err) => {
            &&& new == UiState { midi_status: new.midi_status, ..old }
            &&& new.midi_status@ == "Conflict: "@ + err@
            &&& effects =~= Seq::<UiEffect>::empty()
        },
    }
}

/// The name shown for a dashboard widget: the cached light's or group's name,
/// or `Light {id}` / `Group {id}` when it is not cached. Widgets that are not
/// lights are looked up among the groups.
pub open spec fn widget_name(ui: UiState, item: DashboardItem) -> Seq<char> {
    if item.item_type@ == "light"@ {
        if ui.lights@.contains_key(item.id@) {
            ui.lights@[item.id@].name@
        } else {
            "Light "@ + item.id@
        }
    } else {
        if ui.groups@.contains_key(item.id@) {
            ui.groups@[item.id@].name@
        } else {
            "Group "@ + item.id@
        }
    }
}

/// The message that sends `body` to a widget's light or group; other widget
/// types send nothing.
pub open spec fn widget_command(item: DashboardItem, body: StateBody, r: Option<BgMessage>) -> bool {
    if item.item_type@ == "light"@ {
        r matches Some(BgMessage::SetLightState { light_id, state }) && light_id@ == item.id@ && state == body
    } else if item.item_type@ == "group"@ {
        r matches Some(BgMessage::SetGroupAction { group_id, action }) && group_id@ == item.id@ && action == body
    } else {
        r is None
    }
}

/// The ids of the `n` widgets of `items` from position `start` on.
pub open spec fn widget_ids(items: Seq<DashboardItem>, start: int, n: nat) -> Seq<Seq<char>> {
    Seq::new(n, |i: int| items[start + i].id@)
}

/// Widgets whose ids are the elements of `s` in order hold each element of
/// `s` once and nothing else.
proof fn lemma_widget_ids(items: Seq<DashboardItem>, start: int, s: StrSet)
    requires
        s.wf(),
        0 <= start,
        start + s.spec_len() <= items.len(),
        forall|i: int| 0 <= i < s.spec_len() ==> items[start + i].id@ == #[trigger] s.elem_at(i),
    ensures
        widget_ids(items, start, s.spec_len()).to_set() == s@,
        widget_ids(items, start, s.spec_len()).no_duplicates(),
{
    s.lemma_elements();
    let ids = widget_ids(items, start, s.spec_len());
    assert forall|k: Seq<char>| ids.to_set().contains(k) implies s@.contains(k) by {
        let i = choose|i: int| 0 <= i < ids.len() && ids[i] == k;
        assert(s.elem_at(i) == k);
    }
    assert forall|k: Seq<char>| s@.contains(k) implies ids.to_set().contains(k) by {
        let i = choose|i: int| 0 <= i < s.spec_len() && #[trigger] s.elem_at(i) == k;
        assert(ids[i] == k);
    }
    assert(ids.to_set() =~= s@);
    assert forall|i: int, j: int| 0 <= i < ids.len() && 0 <= j < ids.len() && i != j implies ids[i] != ids[j] by {
        assert(ids[i] == s.elem_at(i));
        assert(ids[j] == s.elem_at(j));
    }
}

/// The brightness after one step of the mouse wheel: 15 up or down from the
/// current one (0 when not reported), kept within 0..=254.
pub open spec fn wheel_brightness(current: Option<u8>, up: bool) -> u8 {
    let c: int = match current {
        Some(b) => b as int,
        None => 0,
    };
    let n = if up { c + 15 } else { c - 15 };
    (if n < 0 {
        0
    } else if n > 254 {
        254
    } else {
        n
    }) as u8
}

/// The command of one mouse-wheel step on a device that shows power `on` and
/// brightness `bri`: the new brightness, and `on: true` when the step is up and
/// the device is not shown on.
pub open spec fn wheel_body(on: Option<bool>, bri: Option<u8>, up: bool) -> StateBody {
    StateBody {
        on: if up && on != Some(true) { Some(true) } else { None },
        bri: Some(wheel_brightness(bri, up)),
        hue: None,
        sat: None,
        ct: None,
        scene: None,
    }
}

/// A body that sets only the power.
pub open spec fn power_body(on: bool) -> StateBody {
    StateBody { on: Some(on), bri: None, hue: None, sat: None, ct: None, scene: None }
}

/// A body that sets only the brightness.
pub open spec fn brightness_body(bri: u8) -> StateBody {
    StateBody { on: None, bri: Some(bri), hue: None, sat: None, ct: None, scene: None }
}

/// The power and brightness that the caches show for a widget, when its
/// device is cached.
pub open spec fn widget_power(ui: UiState, item: DashboardItem) -> Option<(Option<bool>, Option<u8>)> {
    if item.item_type@ == "light"@ {
        if ui.lights@.contains_key(item.id@) {
            Some((ui.lights@[item.id@].state.on, ui.lights@[item.id@].state.bri))
        } else {
            None
        }
    } else if item.item_type@ == "group"@ {
        if ui.groups@.contains_key(item.id@) {
            Some((ui.groups@[item.id@].action.on, ui.groups@[item.id@].action.bri))
        } else {
            None
        }
    } else {
        None
    }
}

/// Which way a widget was dragged.
#[derive(Debug, Clone, Copy, PartialEq, Eq, Structural)]
pub enum DragDirection {
    Up,
    Down,
    Still,
}

/// The two widget positions that a drag swaps: with the next widget when
/// dragged down from any but the last, with the previous one when dragged up
/// from any but the first.
pub open spec fn drag_swap(idx: int, len: int, dir: DragDirection) -> Option<(int, int)> {
    match dir {
        DragDirection::Down => if idx < len - 1 { Some((idx, idx + 1)) } else { None },
        DragDirection::Up => if idx > 0 { Some((idx, idx - 1)) } else { None },
        DragDirection::Still => None,
    }
}

/// The colour of the MIDI status badge.
#[derive(Debug, Clone, Copy, PartialEq, Eq, Structural)]
pub enum StatusColour {
    Green,
    Yellow,
    Gray,
}

/// Green for a status that mentions `Active`, yellow for one that mentions
/// `Connecting`, gray otherwise.
pub open spec fn status_colour(status: Seq<char>) -> StatusColour {
    if has_substring(status, "Active"@) {
        StatusColour::Green
    } else if has_substring(status, "Connecting"@) {
        StatusColour::Yellow
    } else {
        StatusColour::Gray
    }
}

/// The name shown for a mapping's target: the cached light's, group's or
/// scene's name, or `Light {id}`, `Group {id}`, `Scene {id}`.
pub open spec fn mapping_target_name(ui: UiState, m: Mapping) -> Seq<char> {
    if m.target_type@ == "light"@ {
        if ui.lights@.contains_key(m.target_id@) { ui.lights@[m.target_id@].name@ } else { "Light "@ + m.target_id@ }
    } else if m.target_type@ == "group"@ {
        if ui.groups@.contains_key(m.target_id@) { ui.groups@[m.target_id@].name@ } else { "Group "@ + m.target_id@ }
    } else {
        if ui.scenes@.contains_key(m.target_id@) { ui.scenes@[m.target_id@].name@ } else { "Scene "@ + m.target_id@ }
    }
}

/// The label of the target picker: a prompt while no target is chosen, else
/// the chosen light's, group's or scene's name, or `Unknown Light`,
/// `Unknown Group`, `Unknown Scene`.
pub open spec fn target_label(ui: UiState) -> Seq<char> {
    let c = ui.mapping_creator;
    if c.target_id@.len() == 0 {
        "Choose Device/Scene..."@
    } else if c.target_type@ == "light"@ {
        if ui.lights@.contains_key(c.target_id@) { ui.lights@[c.target_id@].name@ } else { "Unknown Light"@ }
    } else if c.target_type@ == "group"@ {
        if ui.groups@.contains_key(c.target_id@) { ui.groups@[c.target_id@].name@ } else { "Unknown Group"@ }
    } else {
        if ui.scenes@.contains_key(c.target_id@) { ui.scenes@[c.target_id@].name@ } else { "Unknown Scene"@ }
    }
}

/// The actions that the mapping dialog offers, in order: only `Recall Scene`
/// for a scene; otherwise the two power toggles, then brightness with the
/// dimming capability, colour temperature with that capability, and hue,
/// saturation and the three colour components with the colour capability.
pub open spec fn offered_actions(target_type: Seq<char>, caps: Set<Capability>) -> Seq<Seq<char>> {
    if target_type == "scene"@ {
        seq!["Recall Scene"@]
    } else {
        seq!["On/Off (Latch)"@, "On/Off (Momentary)"@]
            + (if caps.contains(Capability::Dim) { seq!["Brightness"@] } else { Seq::empty() })
            + (if caps.contains(Capability::Ct) { seq!["Color Temperature"@] } else { Seq::empty() })
            + (if caps.contains(Capability::Color) {
                seq!["Hue"@, "Saturation"@, "Red Component"@, "Green Component"@, "Blue Component"@]
            } else {
                Seq::empty()
            })
    }
}

/// What a tray menu entry asks for.
#[derive(Debug, Clone, Copy, PartialEq, Eq, Structural)]
pub enum TrayCommand {
    ShowWindow,
    Quit,
    Nothing,
}

/// The union of the capabilities of the cached lights among `ids`.
pub open spec fn cached_lights_capabilities(ui: UiState, ids: Seq<String>) -> Set<Capability>
    decreases ids.len(),
{
    if ids.len() == 0 {
        Set::empty()
    } else {
        let id = ids.last()@;
        cached_lights_capabilities(ui, ids.drop_last()).union(
            if ui.lights@.contains_key(id) {
                light_capabilities(ui.lights@[id].state, lowercase(ui.lights@[id].light_type@))
            } else {
                Set::empty()
            },
        )
    }
}

/// The capabilities that the mapping dialog offers actions for: a light
/// target's own (none when not cached); for a group target, the union of its
/// cached lights' capabilities, every capability when that is empty, and none
/// when the group is not cached; none for a scene.
pub open spec fn creator_capabilities(ui: UiState) -> Set<Capability> {
    let c = ui.mapping_creator;
    if c.target_type@ == "light"@ {
        if ui.lights@.contains_key(c.target_id@) {
            light_capabilities(ui.lights@[c.target_id@].state, lowercase(ui.lights@[c.target_id@].light_type@))
        } else {
            Set::empty()
        }
    } else if c.target_type@ == "group"@ {
        if ui.groups@.contains_key(c.target_id@) {
            let u = cached_lights_capabilities(ui, ui.groups@[c.target_id@].lights@);
            if u == Set::<Capability>::empty() {
                set![Capability::Dim, Capability::Ct, Capability::Color]
            } else {
                u
            }
        } else {
            Set::empty()
        }
    } else {
        Set::empty()
    }
}

/// Saving the mapping dialog: when a target is chosen, the dialog's mapping
/// is stored for its event in the selected device's table (created when
/// missing), the configuration is saved and the dialog closes; without a
/// target nothing happens.
pub open spec fn save_mapping_post(old: UiState, new: UiState, effects: Seq<UiEffect>) -> bool {
    &&& (old.mapping_creator.target_id@.len() == 0 ==> new == old && effects.len() == 0)
    &&& (old.mapping_creator.target_id@.len() > 0 ==> ({
                let d = old.config.selected_device@;
                let c = old.mapping_creator;
                &&& new == (UiState {
                    config: AppConfig { mappings: new.config.mappings, ..old.config },
                    mapping_creator: MappingCreatorState { is_open: false, ..c },
                    ..old
                })
                &&& new.config.mappings@.dom() == old.config.mappings@.dom().insert(d)
                &&& forall|o: Seq<char>| o != d && #[trigger] old.config.mappings@.contains_key(o)
                    ==> new.config.mappings@[o] == old.config.mappings@[o]
                &&& new.config.mappings@[d]@ == (if old.config.mappings@.contains_key(d) {
                        old.config.mappings@[d]@
                    } else {
                        Map::<Seq<char>, Mapping>::empty()
                    }).insert(c.event_key@, Mapping {
                        target_type: c.target_type,
                        target_id: c.target_id,
                        action: c.action,
                        invert: c.invert,
                        auto_on: c.auto_on,
                    })
                &&& effects =~= seq![UiEffect::SaveConfig]
            }))
}

/// Editing the mapping of event `key` of the selected device: when it
/// exists, the mapping dialog opens with its settings; otherwise nothing
/// happens.
pub open spec fn edit_mapping_post(old: UiState, new: UiState, key: String) -> bool {
    &&& (old.config.has_mapping(old.config.selected_device@, key@) ==> ({
                let m = old.config.mapping_of(old.config.selected_device@, key@);
                new == (UiState {
                    mapping_creator: MappingCreatorState {
                        is_open: true,
                        event_key: key,
                        target_type: m.target_type,
                        target_id: m.target_id,
                        action: m.action,
                        invert: m.invert,
                        auto_on: m.auto_on,
                    },
                    ..old
                })
            }))
    &&& (!old.config.has_mapping(old.config.selected_device@, key@) ==> new == old)
}

impl UiState {
    /// The user interface for `config`, in the configuration's starting
    /// connection state, on the dashboard, with empty caches and log, the
    /// status `Disconnected`, closed dialogs (the mapping dialog preset to a
    /// light's brightness with auto-on), and the bridge address in the address
    /// field; with the messages of [`startup_effects`].
    pub fn new(config: AppConfig, midi_ports: Vec<String>, tray_show_hide_id: String, tray_quit_id: String) -> (r: (UiState, Vec<UiEffect>))
        ensures
            r.0.config == config,
            initial_connection_state(config.bridge_ip@, config.bridge_username@, r.0.connection_state),
            r.0.active_tab == Tab::Dashboard,
            r.0.lights@ == Map::<Seq<char>, Light>::empty(),
            r.0.groups@ == Map::<Seq<char>, Group>::empty(),
            r.0.scenes@ == Map::<Seq<char>, Scene>::empty(),
            r.0.midi_ports == midi_ports,
            r.0.midi_log@ == Seq::<LogEntry>::empty(),
            r.0.midi_status@ == "Disconnected"@,
            !r.0.mapping_creator.is_open,
            r.0.mapping_creator.event_key@ == Seq::<char>::empty(),
            r.0.mapping_creator.target_type@ == "light"@,
            r.0.mapping_creator.target_id@ == Seq::<char>::empty(),
            r.0.mapping_creator.action@ == "Brightness"@,
            !r.0.mapping_creator.invert,
            r.0.mapping_creator.auto_on,
            !r.0.add_widgets.is_open,
            r.0.add_widgets.search_query@ == Seq::<char>::empty(),
            r.0.add_widgets.selected_lights@ == Set::<Seq<char>>::empty(),
            r.0.add_widgets.selected_groups@ == Set::<Seq<char>>::empty(),
            r.0.tray_show_hide_id == tray_show_hide_id,
            r.0.tray_quit_id == tray_quit_id,
            r.0.manual_ip_input@ == config.bridge_ip@,
            startup_effects(config, r.1@),
    {
        let connection_state = startup_connection_state(&config);
        let mut effects: Vec<UiEffect> = Vec::new();
        match &connection_state {
            BridgeConnectionState::Connected { .. } => effects.push(UiEffect::Send(BgMessage::RefreshDevices)),
            BridgeConnectionState::Searching => effects.push(UiEffect::Send(BgMessage::StartAutoDiscovery)),
            _ => {},
        }
        if config.selected_device.as_str().unicode_len() > 0 {
            effects.push(UiEffect::Send(BgMessage::ChangeMidiPort(config.selected_device.clone())));
        }
        let manual_ip_input = config.bridge_ip.clone();
        let ui = UiState {
            config,
            connection_state,
            active_tab: Tab::Dashboard,
            lights: StrMap::new(),
            groups: StrMap::new(),
            scenes: StrMap::new(),
            midi_ports,
            midi_log: Vec::new(),
            midi_status: String::from_str("Disconnected"),
            mapping_creator: MappingCreatorState {
                is_open: false,
                event_key: String::new(),
                target_type: String::from_str("light"),
                target_id: String::new(),
                action: String::from_str("Brightness"),
                invert: false,
                auto_on: true,
            },
            add_widgets: AddWidgetsState {
                is_open: false,
                search_query: String::new(),
                selected_lights: StrSet::new(),
                selected_groups: StrSet::new(),
            },
            tray_show_hide_id,
            tray_quit_id,
            manual_ip_input,
        };
        (ui, effects)
    }

    /// A message from the worker, received at `time`; see [`gui_message_post`].
    pub fn apply_message(&mut self, msg: GuiMessage, time: String) -> (effects: Vec<UiEffect>)
        ensures
            gui_message_post(*old(self), *final(self), msg, time, effects@),
    {
        let mut effects: Vec<UiEffect> = Vec::new();
        match msg {
            GuiMessage::MidiActivity(e) => {
                let ghost entry = LogEntry { time, event_key: e.event_key, value: e.value };
                self.midi_log.insert(0, LogEntry { time, event_key: e.event_key, value: e.value });
                if self.midi_log.len() > LOG_CAPACITY {
                    self.midi_log.truncate(LOG_CAPACITY);
                }
                self.midi_status = String::from_str("Live Input: Active");
                assert(self.midi_log@ =~= log_after(old(self).midi_log@, entry));
            },
            GuiMessage::HueConnectionState(s) => {
                match &s {
                    BridgeConnectionState::Connected { ip, username } => {
                        self.config.bridge_ip = ip.clone();
                        self.config.bridge_username = username.clone();
                        effects.push(UiEffect::SaveConfig);
                        effects.push(UiEffect::Send(BgMessage::RefreshDevices));
                    },
                    BridgeConnectionState::Idle => {
                        self.lights.clear();
                        self.groups.clear();
                        self.scenes.clear();
                    },
                    _ => {},
                }
                self.connection_state = s;
            },
            GuiMessage::DevicesRefreshed { lights, groups, scenes } => {
                self.lights = lights;
                self.groups = groups;
                self.scenes = scenes;
            },
            GuiMessage::MidiStatus(st) => {
                self.midi_status = st;
            },
            GuiMessage::Error(err) => {
                let mut st = String::from_str("Conflict: ");
                st.append(err.as_str());
                self.midi_status = st;
            },
        }
        effects
    }

    fn is_text(s: &String, lit: &str) -> (b: bool)
        ensures
            b == (s@ == lit@),
    {
        *s == String::from_str(lit)
    }

    fn text_plus(lit: &str, tail: &String) -> (r: String)
        ensures
            r@ == lit@ + tail@,
    {
        let mut r = String::from_str(lit);
        r.append(tail.as_str());
        r
    }

    /// Whether the main window (rather than the connection screen) shows:
    /// only when connected.
    pub fn shows_main_app(&self) -> (b: bool)
        ensures
            b == (self.connection_state is Connected),
    {
        self.connection_state.is_connected()
    }

    /// The user asks to type the bridge address: the address screen shows.
    pub fn enter_ip_manually(&mut self)
        ensures
            *final(self) == (UiState { connection_state: BridgeConnectionState::Idle, ..*old(self) }),
    {
        self.connection_state = BridgeConnectionState::Idle;
    }

    /// The user asks for a new discovery: the worker is told and the
    /// searching screen shows.
    pub fn rediscover(&mut self) -> (effects: Vec<UiEffect>)
        ensures
            *final(self) == (UiState { connection_state: BridgeConnectionState::Searching, ..*old(self) }),
            effects@ =~= seq![UiEffect::Send(BgMessage::StartAutoDiscovery)],
    {
        self.connection_state = BridgeConnectionState::Searching;
        let mut effects: Vec<UiEffect> = Vec::new();
        effects.push(UiEffect::Send(BgMessage::StartAutoDiscovery));
        effects
    }

    /// The user connects to the typed address: when the field is not empty,
    /// the address without surrounding white space goes to the worker.
    pub fn connect_clicked(&self) -> (effects: Vec<UiEffect>)
        ensures
            self.manual_ip_input@.len() == 0 ==> effects@.len() == 0,
            self.manual_ip_input@.len() > 0 ==> (effects@.len() == 1
                && (effects@[0] matches UiEffect::Send(BgMessage::ConnectManual(ip))
                && is_trim_of(ip@, self.manual_ip_input@))),
    {
        let mut effects: Vec<UiEffect> = Vec::new();
        if self.manual_ip_input.as_str().unicode_len() > 0 {
            let t = trim(self.manual_ip_input.as_str());
            effects.push(UiEffect::Send(BgMessage::ConnectManual(t)));
        }
        effects
    }

    /// The name shown for a dashboard widget; see [`widget_name`].
    pub fn widget_name(&self, item: &DashboardItem) -> (n: String)
        ensures
            n@ == widget_name(*self, *item),
    {
        if Self::is_text(&item.item_type, "light") {
            match self.lights.get(&item.id) {
                Some(l) => l.name.clone(),
                None => Self::text_plus("Light ", &item.id),
            }
        } else {
            match self.groups.get(&item.id) {
                Some(g) => g.name.clone(),
                None => Self::text_plus("Group ", &item.id),
            }
        }
    }

    /// The power and brightness shown for a widget; see [`widget_power`].
    pub fn widget_power(&self, item: &DashboardItem) -> (r: Option<(Option<bool>, Option<u8>)>)
        ensures
            r == widget_power(*self, *item),
    {
        if Self::is_text(&item.item_type, "light") {
            match self.lights.get(&item.id) {
                Some(l) => Some((l.state.on, l.state.bri)),
                None => None,
            }
        } else if Self::is_text(&item.item_type, "group") {
            match self.groups.get(&item.id) {
                Some(g) => Some((g.action.on, g.action.bri)),
                None => None,
            }
        } else {
            None
        }
    }

    /// The message that sends `body` to a widget's device; see [`widget_command`].
    pub fn widget_command(item: &DashboardItem, body: StateBody) -> (r: Option<BgMessage>)
        ensures
            widget_command(*item, body, r),
    {
        if Self::is_text(&item.item_type, "light") {
            Some(BgMessage::SetLightState { light_id: item.id.clone(), state: body })
        } else if Self::is_text(&item.item_type, "group") {
            Some(BgMessage::SetGroupAction { group_id: item.id.clone(), action: body })
        } else {
            None
        }
    }

    /// The power checkbox of a widget was set to `on`.
    pub fn power_toggled(item: &DashboardItem, on: bool) -> (r: Option<BgMessage>)
        ensures
            widget_command(*item, power_body(on), r),
    {
        Self::widget_command(item, StateBody { on: Some(on), bri: None, hue: None, sat: None, ct: None, scene: None })
    }

    /// The brightness slider of a widget was set to `bri`.
    pub fn brightness_changed(item: &DashboardItem, bri: u8) -> (r: Option<BgMessage>)
        ensures
            widget_command(*item, brightness_body(bri), r),
    {
        Self::widget_command(item, StateBody { on: None, bri: Some(bri), hue: None, sat: None, ct: None, scene: None })
    }

    /// One mouse-wheel step over a widget: nothing when its device is not
    /// cached, else the command of [`wheel_body`].
    pub fn wheel_step(&self, item: &DashboardItem, up: bool) -> (r: Option<BgMessage>)
        ensures
            match widget_power(*self, *item) {
                None => r is None,
                Some((on, bri)) => widget_command(*item, wheel_body(on, bri, up), r),
            },
    {
        match self.widget_power(item) {
            None => None,
            Some((on, bri)) => {
                let c: i16 = match bri {
                    Some(b) => b as i16,
                    None => 0,
                };
                let n: i16 = if up { c + 15 } else { c - 15 };
                let clamped: u8 = if n < 0 {
                    0
                } else if n > 254 {
                    254
                } else {
                    n as u8
                };
                let turn_on = if up && on != Some(true) { Some(true) } else { None };
                Self::widget_command(item, StateBody { on: turn_on, bri: Some(clamped), hue: None, sat: None, ct: None, scene: None })
            },
        }
    }

    /// A double click on a widget: nothing when its device is not cached,
    /// else the opposite of the power it shows (off when not reported).
    pub fn double_clicked(&self, item: &DashboardItem) -> (r: Option<BgMessage>)
        ensures
            match widget_power(*self, *item) {
                None => r is None,
                Some((on, bri)) => widget_command(*item, power_body(on != Some(true)), r),
            },
    {
        match self.widget_power(item) {
            None => None,
            Some((on, _)) => Self::widget_command(item, StateBody {
                on: Some(on != Some(true)),
                bri: None,
                hue: None,
                sat: None,
                ct: None,
                scene: None,
            }),
        }
    }

    /// The positions that a drag of widget `idx` swaps; see [`drag_swap`].
    pub fn drag_swap(&self, idx: usize, dir: DragDirection) -> (r: Option<(usize, usize)>)
        requires
            idx < self.config.dashboard_layout@.len(),
        ensures
            match drag_swap(idx as int, self.config.dashboard_layout@.len() as int, dir) {
                None => r is None,
                Some((a, b)) => r matches Some((x, y)) && x == a && y == b,
            },
    {
        let len = self.config.dashboard_layout.len();
        match dir {
            DragDirection::Down => if idx < len - 1 { Some((idx, idx + 1)) } else { None },
            DragDirection::Up => if idx > 0 { Some((idx, idx - 1)) } else { None },
            DragDirection::Still => None,
        }
    }

    /// Removes widget `idx` from the dashboard and saves.
    pub fn remove_widget(&mut self, idx: usize) -> (effects: Vec<UiEffect>)
        requires
            idx < old(self).config.dashboard_layout@.len(),
        ensures
            *final(self) == (UiState { config: AppConfig { dashboard_layout: final(self).config.dashboard_layout, ..old(self).config }, ..*old(self) }),
            final(self).config.dashboard_layout@ == old(self).config.dashboard_layout@.remove(idx as int),
            effects@ =~= seq![UiEffect::SaveConfig],
    {
        self.config.dashboard_layout.remove(idx);
        let mut effects: Vec<UiEffect> = Vec::new();
        effects.push(UiEffect::SaveConfig);
        effects
    }

    /// Swaps widgets `a` and `b` of the dashboard and saves.
    pub fn swap_widgets(&mut self, a: usize, b: usize) -> (effects: Vec<UiEffect>)
        requires
            a < old(self).config.dashboard_layout@.len(),
            b < old(self).config.dashboard_layout@.len(),
        ensures
            *final(self) == (UiState { config: AppConfig { dashboard_layout: final(self).config.dashboard_layout, ..old(self).config }, ..*old(self) }),
            final(self).config.dashboard_layout@ == old(self).config.dashboard_layout@
                .update(a as int, old(self).config.dashboard_layout@[b as int])
                .update(b as int, old(self).config.dashboard_layout@[a as int]),
            effects@ =~= seq![UiEffect::SaveConfig],
    {
        let ghost before = self.config.dashboard_layout@;
        let mut layout = Vec::new();
        std::mem::swap(&mut layout, &mut self.config.dashboard_layout);
        if a != b {
            let (lo, hi) = if a < b { (a, b) } else { (b, a) };
            let high = layout.remove(hi);
            let low = layout.remove(lo);
            layout.insert(lo, high);
            layout.insert(hi, low);
        }
        assert(layout@ =~= before.update(a as int, before[b as int]).update(b as int, before[a as int]));
        std::mem::swap(&mut layout, &mut self.config.dashboard_layout);
        let mut effects: Vec<UiEffect> = Vec::new();
        effects.push(UiEffect::SaveConfig);
        effects
    }

    /// Opens the add-widgets dialog with nothing selected.
    pub fn open_add_widgets(&mut self)
        ensures
            final(self).add_widgets.is_open,
            final(self).add_widgets.search_query == old(self).add_widgets.search_query,
            final(self).add_widgets.selected_lights@ == Set::<Seq<char>>::empty(),
            final(self).add_widgets.selected_groups@ == Set::<Seq<char>>::empty(),
            *final(self) == (UiState { add_widgets: final(self).add_widgets, ..*old(self) }),
    {
        self.add_widgets.is_open = true;
        self.add_widgets.selected_lights.clear();
        self.add_widgets.selected_groups.clear();
    }

    /// The user picks MIDI port `port`: when it differs from the selected
    /// device, it becomes the selected device, is saved and opened, and the
    /// status shows that it is connecting.
    pub fn select_port(&mut self, port: String) -> (effects: Vec<UiEffect>)
        ensures
            port@ == old(self).config.selected_device@ ==> *final(self) == *old(self) && effects@.len() == 0,
            port@ != old(self).config.selected_device@ ==> {
                &&& *final(self) == (UiState {
                    config: AppConfig { selected_device: port, ..old(self).config },
                    midi_status: final(self).midi_status,
                    ..*old(self)
                })
                &&& final(self).midi_status@ == "Connecting..."@
                &&& effects@ =~= seq![UiEffect::SaveConfig, UiEffect::Send(BgMessage::ChangeMidiPort(port))]
            },
    {
        let mut effects: Vec<UiEffect> = Vec::new();
        if port != self.config.selected_device {
            self.config.selected_device = port.clone();
            effects.push(UiEffect::SaveConfig);
            effects.push(UiEffect::Send(BgMessage::ChangeMidiPort(port)));
            self.midi_status = String::from_str("Connecting...");
        }
        effects
    }

    /// The colour of the MIDI status badge; see [`status_colour`].
    pub fn status_colour(&self) -> (c: StatusColour)
        ensures
            c == status_colour(self.midi_status@),
    {
        if contains_str(self.midi_status.as_str(), "Active") {
            StatusColour::Green
        } else if contains_str(self.midi_status.as_str(), "Connecting") {
            StatusColour::Yellow
        } else {
            StatusColour::Gray
        }
    }

    /// The user binds logged event `event_key`: the mapping dialog opens for it.
    pub fn bind_event(&mut self, event_key: String)
        ensures
            *final(self) == (UiState {
                mapping_creator: MappingCreatorState { is_open: true, event_key, ..old(self).mapping_creator },
                ..*old(self)
            }),
    {
        self.mapping_creator.is_open = true;
        self.mapping_creator.event_key = event_key;
    }

    /// Showing the mappings of the selected device gives it an (empty) table
    /// when it has none.
    pub fn ensure_device_table(&mut self)
        ensures
            final(self).config.mappings@.dom() == old(self).config.mappings@.dom().insert(old(self).config.selected_device@),
            old(self).config.mappings@.contains_key(old(self).config.selected_device@)
                ==> final(self).config.mappings == old(self).config.mappings,
            !old(self).config.mappings@.contains_key(old(self).config.selected_device@)
                ==> final(self).config.mappings@ == old(self).config.mappings@.insert(
                    old(self).config.selected_device@,
                    final(self).config.mappings@[old(self).config.selected_device@],
                ) && final(self).config.mappings@[old(self).config.selected_device@]@ == Map::<Seq<char>, Mapping>::empty(),
            *final(self) == (UiState { config: AppConfig { mappings: final(self).config.mappings, ..old(self).config }, ..*old(self) }),
    {
        if !self.config.mappings.contains_key(&self.config.selected_device) {
            let device = self.config.selected_device.clone();
            let mut maps = StrMap::new();
            std::mem::swap(&mut maps, &mut self.config.mappings);
            maps.insert(device, StrMap::new());
            std::mem::swap(&mut maps, &mut self.config.mappings);
            assert(final(self).config.mappings@.dom() =~= old(self).config.mappings@.dom().insert(old(self).config.selected_device@));
        } else {
            assert(final(self).config.mappings@.dom() =~= old(self).config.mappings@.dom().insert(old(self).config.selected_device@));
        }
    }

    /// The name shown for a mapping's target; see [`mapping_target_name`].
    pub fn mapping_target_name(&self, m: &Mapping) -> (n: String)
        ensures
            n@ == mapping_target_name(*self, *m),
    {
        if Self::is_text(&m.target_type, "light") {
            match self.lights.get(&m.target_id) {
                Some(l) => l.name.clone(),
                None => Self::text_plus("Light ", &m.target_id),
            }
        } else if Self::is_text(&m.target_type, "group") {
            match self.groups.get(&m.target_id) {
                Some(g) => g.name.clone(),
                None => Self::text_plus("Group ", &m.target_id),
            }
        } else {
            match self.scenes.get(&m.target_id) {
                Some(sc) => sc.name.clone(),
                None => Self::text_plus("Scene ", &m.target_id),
            }
        }
    }

    /// The user deletes the mapping of event `key` of the selected device:
    /// when the device has a table, the mapping leaves it and the
    /// configuration is saved.
    pub fn delete_mapping(&mut self, key: &String) -> (effects: Vec<UiEffect>)
        ensures
            ({
                let d = old(self).config.selected_device@;
                if old(self).config.mappings@.contains_key(d) {
                    &&& final(self).config.mappings@.dom() == old(self).config.mappings@.dom()
                    &&& forall|o: Seq<char>| o != d && #[trigger] old(self).config.mappings@.contains_key(o)
                        ==> final(self).config.mappings@[o] == old(self).config.mappings@[o]
                    &&& final(self).config.mappings@[d]@ == old(self).config.mappings@[d]@.remove(key@)
                    &&& effects@ =~= seq![UiEffect::SaveConfig]
                } else {
                    final(self).config.mappings == old(self).config.mappings && effects@.len() == 0
                }
            }),
            *final(self) == (UiState { config: AppConfig { mappings: final(self).config.mappings, ..old(self).config }, ..*old(self) }),
    {
        let mut effects: Vec<UiEffect> = Vec::new();
        let device = self.config.selected_device.clone();
        let mut maps = StrMap::new();
        std::mem::swap(&mut maps, &mut self.config.mappings);
        if let Some(table) = maps.get(&device) {
            let ghost t0 = *table;
            let ghost m0 = maps@;
            let mut table = maps.remove(&device).unwrap();
            table.remove(key);
            maps.insert(device, table);
            effects.push(UiEffect::SaveConfig);
            assert(maps@.dom() =~= m0.dom());
        }
        std::mem::swap(&mut maps, &mut self.config.mappings);
        effects
    }

    /// The user edits the mapping of event `key` of the selected device: when
    /// it exists, the mapping dialog opens with its settings.
    pub fn edit_mapping(&mut self, key: &String)
        ensures
            edit_mapping_post(*old(self), *final(self), *key),
    {
        match self.config.mapping_for(&self.config.selected_device, key) {
            Some(m) => {
                let m = m.duplicate();
                self.mapping_creator = MappingCreatorState {
                    is_open: true,
                    event_key: key.clone(),
                    target_type: m.target_type,
                    target_id: m.target_id,
                    action: m.action,
                    invert: m.invert,
                    auto_on: m.auto_on,
                };
            },
            None => {},
        }
    }

    /// The launch-on-startup checkbox was set to `on`: stored and saved.
    pub fn autostart_toggled(&mut self, on: bool) -> (effects: Vec<UiEffect>)
        ensures
            *final(self) == (UiState { config: AppConfig { autostart: on, ..old(self).config }, ..*old(self) }),
            effects@ =~= seq![UiEffect::SaveConfig],
    {
        self.config.autostart = on;
        let mut effects: Vec<UiEffect> = Vec::new();
        effects.push(UiEffect::SaveConfig);
        effects
    }

    /// The user forgets the bridge: the worker is told, address and key are
    /// cleared and saved, and the address screen shows.
    pub fn forget_bridge(&mut self) -> (effects: Vec<UiEffect>)
        ensures
            *final(self) == (UiState {
                connection_state: BridgeConnectionState::Idle,
                config: AppConfig {
                    bridge_ip: final(self).config.bridge_ip,
                    bridge_username: final(self).config.bridge_username,
                    ..old(self).config
                },
                ..*old(self)
            }),
            final(self).config.bridge_ip@ == Seq::<char>::empty(),
            final(self).config.bridge_username@ == Seq::<char>::empty(),
            effects@ =~= seq![UiEffect::Send(BgMessage::ForgetBridge), UiEffect::SaveConfig],
    {
        let mut effects: Vec<UiEffect> = Vec::new();
        effects.push(UiEffect::Send(BgMessage::ForgetBridge));
        self.config.bridge_ip = String::new();
        self.config.bridge_username = String::new();
        effects.push(UiEffect::SaveConfig);
        self.connection_state = BridgeConnectionState::Idle;
        effects
    }

    /// The label of the target picker; see [`target_label`].
    pub fn target_label(&self) -> (l: String)
        ensures
            l@ == target_label(*self),
    {
        let c = &self.mapping_creator;
        if c.target_id.as_str().unicode_len() == 0 {
            String::from_str("Choose Device/Scene...")
        } else if Self::is_text(&c.target_type, "light") {
            match self.lights.get(&c.target_id) {
                Some(l) => l.name.clone(),
                None => String::from_str("Unknown Light"),
            }
        } else if Self::is_text(&c.target_type, "group") {
            match self.groups.get(&c.target_id) {
                Some(g) => g.name.clone(),
                None => String::from_str("Unknown Group"),
            }
        } else {
            match self.scenes.get(&c.target_id) {
                Some(sc) => sc.name.clone(),
                None => String::from_str("Unknown Scene"),
            }
        }
    }

    /// The actions that the mapping dialog offers for its target type with
    /// capabilities `caps`; see [`offered_actions`].
    pub fn offered_actions(&self, caps: &CapSet) -> (r: Vec<String>)
        ensures
            r@.map_values(|a: String| a@) == offered_actions(self.mapping_creator.target_type@, caps@),
    {
        let mut r: Vec<String> = Vec::new();
        if Self::is_text(&self.mapping_creator.target_type, "scene") {
            r.push(String::from_str("Recall Scene"));
        } else {
            r.push(String::from_str("On/Off (Latch)"));
            r.push(String::from_str("On/Off (Momentary)"));
            if caps.contains(Capability::Dim) {
                r.push(String::from_str("Brightness"));
            }
            if caps.contains(Capability::Ct) {
                r.push(String::from_str("Color Temperature"));
            }
            if caps.contains(Capability::Color) {
                r.push(String::from_str("Hue"));
                r.push(String::from_str("Saturation"));
                r.push(String::from_str("Red Component"));
                r.push(String::from_str("Green Component"));
                r.push(String::from_str("Blue Component"));
            }
        }
        assert(r@.map_values(|a: String| a@) =~= offered_actions(self.mapping_creator.target_type@, caps@));
        r
    }

    /// Opening the action list of a scene mapping selects `Recall Scene`, the
    /// only action a scene has; other target types keep their action.
    pub fn open_action_list(&mut self)
        ensures
            old(self).mapping_creator.target_type@ == "scene"@ ==> ({
                &&& *final(self) == (UiState {
                    mapping_creator: MappingCreatorState { action: final(self).mapping_creator.action, ..old(self).mapping_creator },
                    ..*old(self)
                })
                &&& final(self).mapping_creator.action@ == "Recall Scene"@
            }),
            old(self).mapping_creator.target_type@ != "scene"@ ==> *final(self) == *old(self),
    {
        if Self::is_text(&self.mapping_creator.target_type, "scene") {
            self.mapping_creator.action = String::from_str("Recall Scene");
        }
    }

    /// Whether the dialog offers inversion and auto-on: not for scenes, and
    /// not for the power toggles.
    pub fn shows_adjust_options(&self) -> (b: bool)
        ensures
            b == (self.mapping_creator.target_type@ != "scene"@ && !has_prefix(self.mapping_creator.action@, "On/Off"@)),
    {
        !Self::is_text(&self.mapping_creator.target_type, "scene")
            && !starts_with(self.mapping_creator.action.as_str(), "On/Off")
    }

    /// The user saves the mapping dialog: when a target is chosen, the
    /// dialog's mapping is stored for its event in the selected device's table
    /// (created when missing), the configuration is saved and the dialog
    /// closes; without a target nothing happens.
    pub fn save_mapping(&mut self) -> (effects: Vec<UiEffect>)
        ensures
            save_mapping_post(*old(self), *final(self), effects@),
    {
        let mut effects: Vec<UiEffect> = Vec::new();
        if self.mapping_creator.target_id.as_str().unicode_len() == 0 {
            return effects;
        }
        let device = self.config.selected_device.clone();
        let c = &self.mapping_creator;
        let mapping = Mapping {
            target_type: c.target_type.clone(),
            target_id: c.target_id.clone(),
            action: c.action.clone(),
            invert: c.invert,
            auto_on: c.auto_on,
        };
        let key = c.event_key.clone();
        let mut maps = StrMap::new();
        std::mem::swap(&mut maps, &mut self.config.mappings);
        let ghost m0 = maps@;
        let mut table = match maps.remove(&device) {
            Some(t) => t,
            None => StrMap::new(),
        };
        table.insert(key, mapping);
        maps.insert(device, table);
        assert(maps@.dom() =~= m0.dom().insert(old(self).config.selected_device@));
        std::mem::swap(&mut maps, &mut self.config.mappings);
        self.mapping_creator.is_open = false;
        effects.push(UiEffect::SaveConfig);
        effects
    }

    /// Whether the add-widgets dialog lists a device named `name` for the
    /// search `query`: the lower-cased name contains the lower-cased query.
    pub fn matches_search(name: &String, query: &String) -> (b: bool)
        ensures
            b == has_substring(lowercase(name@), lowercase(query@)),
            is_ascii_text(name@) && is_ascii_text(query@)
                ==> b == has_substring(ascii_lowercase(name@), ascii_lowercase(query@)),
    {
        let n = to_lowercase(name.as_str());
        let q = to_lowercase(query.as_str());
        contains_str(n.as_str(), q.as_str())
    }

    /// Whether a widget with id `id` is on the dashboard already.
    pub fn on_dashboard(&self, id: &String) -> (b: bool)
        ensures
            b == exists|i: int| 0 <= i < self.config.dashboard_layout@.len() && #[trigger] self.config.dashboard_layout@[i].id@ == id@,
    {
        let layout = &self.config.dashboard_layout;
        let mut i: usize = 0;
        while i < layout.len()
            invariant
                layout@ == self.config.dashboard_layout@,
                i <= layout@.len(),
                forall|j: int| 0 <= j < i ==> #[trigger] layout@[j].id@ != id@,
            decreases layout@.len() - i,
        {
            if layout[i].id == *id {
                assert(self.config.dashboard_layout@[i as int].id@ == id@);
                return true;
            }
            i = i + 1;
        }
        false
    }

    /// The checkbox of light `id` in the add-widgets dialog was set to `selected`.
    pub fn select_light(&mut self, id: String, selected: bool)
        ensures
            final(self).add_widgets.selected_lights@ == (if selected {
                old(self).add_widgets.selected_lights@.insert(id@)
            } else {
                old(self).add_widgets.selected_lights@.remove(id@)
            }),
            final(self).add_widgets.selected_groups == old(self).add_widgets.selected_groups,
            final(self).add_widgets.is_open == old(self).add_widgets.is_open,
            final(self).add_widgets.search_query == old(self).add_widgets.search_query,
            *final(self) == (UiState { add_widgets: final(self).add_widgets, ..*old(self) }),
    {
        if selected {
            self.add_widgets.selected_lights.insert(id);
        } else {
            self.add_widgets.selected_lights.remove(&id);
        }
    }

    /// The checkbox of group `id` in the add-widgets dialog was set to `selected`.
    pub fn select_group(&mut self, id: String, selected: bool)
        ensures
            final(self).add_widgets.selected_groups@ == (if selected {
                old(self).add_widgets.selected_groups@.insert(id@)
            } else {
                old(self).add_widgets.selected_groups@.remove(id@)
            }),
            final(self).add_widgets.selected_lights == old(self).add_widgets.selected_lights,
            final(self).add_widgets.is_open == old(self).add_widgets.is_open,
            final(self).add_widgets.search_query == old(self).add_widgets.search_query,
            *final(self) == (UiState { add_widgets: final(self).add_widgets, ..*old(self) }),
    {
        if selected {
            self.add_widgets.selected_groups.insert(id);
        } else {
            self.add_widgets.selected_groups.remove(&id);
        }
    }

    /// The user adds the selected devices: a light widget for each selected
    /// light, then a group widget for each selected group, go to the end of
    /// the dashboard; the configuration is saved and the dialog closes.
    pub fn add_selected_widgets(&mut self) -> (effects: Vec<UiEffect>)
        ensures
            ({
                let ls = old(self).add_widgets.selected_lights;
                let gs = old(self).add_widgets.selected_groups;
                let before = old(self).config.dashboard_layout@;
                let after = final(self).config.dashboard_layout@;
                &&& after.len() == before.len() + ls.spec_len() + gs.spec_len()
                &&& after.subrange(0, before.len() as int) == before
                &&& forall|i: int| 0 <= i < ls.spec_len() ==> {
                    &&& (#[trigger] after[before.len() + i]).item_type@ == "light"@
                    &&& after[before.len() + i].id@ == ls.elem_at(i)
                }
                &&& forall|i: int| 0 <= i < gs.spec_len() ==> {
                    &&& (#[trigger] after[before.len() + ls.spec_len() + i]).item_type@ == "group"@
                    &&& after[before.len() + ls.spec_len() + i].id@ == gs.elem_at(i)
                }
                &&& ls.spec_len() == ls@.len() && gs.spec_len() == gs@.len()
                &&& widget_ids(after, before.len() as int, ls.spec_len()).to_set() == ls@
                &&& widget_ids(after, before.len() as int, ls.spec_len()).no_duplicates()
                &&& widget_ids(after, (before.len() + ls.spec_len()) as int, gs.spec_len()).to_set() == gs@
                &&& widget_ids(after, (before.len() + ls.spec_len()) as int, gs.spec_len()).no_duplicates()
            }),
            *final(self) == (UiState {
                config: AppConfig { dashboard_layout: final(self).config.dashboard_layout, ..old(self).config },
                add_widgets: AddWidgetsState { is_open: false, ..old(self).add_widgets },
                ..*old(self)
            }),
            effects@ =~= seq![UiEffect::SaveConfig],
    {
        let ghost before = self.config.dashboard_layout@;
        let mut layout = Vec::new();
        std::mem::swap(&mut layout, &mut self.config.dashboard_layout);
        let ls = &self.add_widgets.selected_lights;
        let mut i: usize = 0;
        while i < ls.len()
            invariant
                i <= ls.spec_len(),
                layout@.len() == before.len() + i,
                layout@.subrange(0, before.len() as int) == before,
                forall|j: int| 0 <= j < i ==> {
                    &&& (#[trigger] layout@[before.len() + j]).item_type@ == "light"@
                    &&& layout@[before.len() + j].id@ == ls.elem_at(j)
                },
            decreases ls.spec_len() - i,
        {
            layout.push(DashboardItem { item_type: String::from_str("light"), id: ls.elem(i).clone() });
            assert(layout@.subrange(0, before.len() as int) =~= before);
            i = i + 1;
        }
        let gs = &self.add_widgets.selected_groups;
        let mid = layout.len();
        let mut j: usize = 0;
        while j < gs.len()
            invariant
                j <= gs.spec_len(),
                mid == before.len() + ls.spec_len(),
                layout@.len() == mid + j,
                layout@.subrange(0, before.len() as int) == before,
                forall|k: int| 0 <= k < ls.spec_len() ==> {
                    &&& (#[trigger] layout@[before.len() + k]).item_type@ == "light"@
                    &&& layout@[before.len() + k].id@ == ls.elem_at(k)
                },
                forall|k: int| 0 <= k < j ==> {
                    &&& (#[trigger] layout@[mid + k]).item_type@ == "group"@
                    &&& layout@[mid + k].id@ == gs.elem_at(k)
                },
            decreases gs.spec_len() - j,
        {
            layout.push(DashboardItem { item_type: String::from_str("group"), id: gs.elem(j).clone() });
            assert(layout@.subrange(0, before.len() as int) =~= before);
            j = j + 1;
        }
        proof {
            use_type_invariant(ls);
            use_type_invariant(gs);
            ls.lemma_elements();
            gs.lemma_elements();
            lemma_widget_ids(layout@, before.len() as int, *ls);
            lemma_widget_ids(layout@, mid as int, *gs);
        }
        std::mem::swap(&mut layout, &mut self.config.dashboard_layout);
        self.add_widgets.is_open = false;
        let mut effects: Vec<UiEffect> = Vec::new();
        effects.push(UiEffect::SaveConfig);
        effects
    }

    /// What a tray menu entry with id `id` asks for: showing the window, quitting, or nothing.
    pub fn tray_command(&self, id: &String) -> (c: TrayCommand)
        ensures
            c == (if id@ == self.tray_show_hide_id@ {
                TrayCommand::ShowWindow
            } else if id@ == self.tray_quit_id@ {
                TrayCommand::Quit
            } else {
                TrayCommand::Nothing
            }),
    {
        if *id == self.tray_show_hide_id {
            TrayCommand::ShowWindow
        } else if *id == self.tray_quit_id {
            TrayCommand::Quit
        } else {
            TrayCommand::Nothing
        }
    }

    /// The capabilities of the mapping dialog's target; see [`creator_capabilities`].
    pub fn creator_capabilities(&self) -> (caps: CapSet)
        ensures
            caps@ == creator_capabilities(*self),
    {
        let c = &self.mapping_creator;
        if Self::is_text(&c.target_type, "light") {
            match self.lights.get(&c.target_id) {
                Some(l) => l.capabilities(),
                None => CapSet::empty(),
            }
        } else if Self::is_text(&c.target_type, "group") {
            match self.groups.get(&c.target_id) {
                Some(g) => {
                    let ids = &g.lights;
                    let mut caps = CapSet::empty();
                    let mut i: usize = 0;
                    while i < ids.len()
                        invariant
                            i <= ids@.len(),
                            caps@ == cached_lights_capabilities(*self, ids@.take(i as int)),
                        decreases ids@.len() - i,
                    {
                        assert(ids@.take(i + 1).drop_last() =~= ids@.take(i as int));
                        match self.lights.get(&ids[i]) {
                            Some(l) => {
                                let lc = l.capabilities();
                                caps.extend(&lc);
                            },
                            None => {
                                assert(caps@.union(Set::<Capability>::empty()) =~= caps@);
                            },
                        }
                        i = i + 1;
                    }
                    assert(ids@.take(ids@.len() as int) =~= ids@);
                    if caps.is_empty() {
                        CapSet::full()
                    } else {
                        caps
                    }
                },
                None => CapSet::empty(),
            }
        } else {
            CapSet::empty()
        }
    }
}

} // verus!

verus! {

/// The activity log never holds more than [`LOG_CAPACITY`] entries, and the
/// newest activity comes first.
pub proof fn lemma_log_bounded(old: UiState, new: UiState, msg: GuiMessage, time: String, effects: Seq<UiEffect>)
    requires
        gui_message_post(old, new, msg, time, effects),
        old.midi_log@.len() <= LOG_CAPACITY,
    ensures
        new.midi_log@.len() <= LOG_CAPACITY,
        msg matches GuiMessage::MidiActivity(e) ==> new.midi_log@[0] == (LogEntry { time, event_key: e.event_key, value: e.value }),
{
}

/// A saved mapping reads back: after the dialog saves a mapping for its
/// event, editing that event of the same device reopens the dialog with the
/// saved target, action and options, and leaves the configuration as saved.
pub proof fn lemma_save_then_edit(u0: UiState, u1: UiState, u2: UiState, effects: Seq<UiEffect>, key: String)
    requires
        save_mapping_post(u0, u1, effects),
        u0.mapping_creator.target_id@.len() > 0,
        key@ == u0.mapping_creator.event_key@,
        edit_mapping_post(u1, u2, key),
    ensures
        u2.mapping_creator.is_open,
        u2.mapping_creator.event_key@ == u0.mapping_creator.event_key@,
        u2.mapping_creator.target_type == u0.mapping_creator.target_type,
        u2.mapping_creator.target_id == u0.mapping_creator.target_id,
        u2.mapping_creator.action == u0.mapping_creator.action,
        u2.mapping_creator.invert == u0.mapping_creator.invert,
        u2.mapping_creator.auto_on == u0.mapping_creator.auto_on,
        u2.config == u1.config,
{
    assert(u1.config.selected_device == u0.config.selected_device);
    assert(u1.config.has_mapping(u1.config.selected_device@, key@));
}

/// One wheel step moves the brightness by 15 from what the cache shows (0
/// when it shows none), up or down, and stops at 0 and 254; a step up also
/// switches on a device that is not shown on. Nothing else is sent.
pub proof fn lemma_wheel_step(current: Option<u8>, on: Option<bool>, up: bool)
    ensures
        ({
            let c: int = match current {
                Some(b) => b as int,
                None => 0,
            };
            &&& up ==> wheel_brightness(current, up) == (if c + 15 > 254 { 254 } else { c + 15 })
            &&& !up ==> wheel_brightness(current, up) == (if c < 15 { 0 } else { c - 15 })
        }),
        wheel_body(on, current, up).bri == Some(wheel_brightness(current, up)),
        up && on != Some(true) ==> wheel_body(on, current, up).on == Some(true),
        !(up && on != Some(true)) ==> wheel_body(on, current, up).on is None,
        wheel_body(on, current, up).hue is None && wheel_body(on, current, up).sat is None,
        wheel_body(on, current, up).ct is None && wheel_body(on, current, up).scene is None,
{
}

/// A step up and a step down undo each other away from the ends of the
/// range, and a step never moves the brightness by more than 15.
pub proof fn lemma_wheel_steps_undo(b: u8, up: bool)
    ensures
        15 <= b <= 239 ==> wheel_brightness(Some(wheel_brightness(Some(b), true)), false) == b,
        15 <= b <= 239 ==> wheel_brightness(Some(wheel_brightness(Some(b), false)), true) == b,
        b <= 254 ==> -15 <= wheel_brightness(Some(b), up) - b <= 15,
        up ==> wheel_brightness(Some(b), up) >= if b > 254 { 254 } else { b as int },
        !up ==> wheel_brightness(Some(b), up) <= b,
{
}

/// A name is in a concatenation exactly when it is in one of the parts.
proof fn lemma_concat_contains(p: Seq<Seq<char>>, q: Seq<Seq<char>>, x: Seq<char>)
    ensures
        (p + q).contains(x) <==> (p.contains(x) || q.contains(x)),
{
    if (p + q).contains(x) {
        let i = choose|i: int| 0 <= i < (p + q).len() && (p + q)[i] == x;
        if i < p.len() {
            assert(p[i] == x);
        } else {
            assert(q[i - p.len()] == x);
        }
    }
    if p.contains(x) {
        let i = choose|i: int| 0 <= i < p.len() && p[i] == x;
        assert((p + q)[i] == x);
    }
    if q.contains(x) {
        let i = choose|i: int| 0 <= i < q.len() && q[i] == x;
        assert((p + q)[p.len() + i] == x);
    }
}

/// A name is in a list of up to five names exactly when it is one of them.
proof fn lemma_list_contains(names: Seq<Seq<char>>, x: Seq<char>)
    requires
        names.len() <= 5,
    ensures
        names.contains(x) <==> (
            (names.len() > 0 && x == names[0]) || (names.len() > 1 && x == names[1]) || (names.len() > 2 && x == names[2])
            || (names.len() > 3 && x == names[3]) || (names.len() > 4 && x == names[4])),
{
    if names.contains(x) {
        let i = choose|i: int| 0 <= i < names.len() && names[i] == x;
        assert(i == 0 || i == 1 || i == 2 || i == 3 || i == 4);
    }
    if names.len() > 0 && x == names[0] { assert(names[0] == x); }
    if names.len() > 1 && x == names[1] { assert(names[1] == x); }
    if names.len() > 2 && x == names[2] { assert(names[2] == x); }
    if names.len() > 3 && x == names[3] { assert(names[3] == x); }
    if names.len() > 4 && x == names[4] { assert(names[4] == x); }
}

/// Which names the dialog offers for a target that is not a scene.
proof fn lemma_offered_contains(target_type: Seq<char>, caps: Set<Capability>, x: Seq<char>)
    requires
        target_type != "scene"@,
    ensures
        offered_actions(target_type, caps).contains(x) <==> (
            x == "On/Off (Latch)"@ || x == "On/Off (Momentary)"@
            || (caps.contains(Capability::Dim) && x == "Brightness"@)
            || (caps.contains(Capability::Ct) && x == "Color Temperature"@)
            || (caps.contains(Capability::Color) && (x == "Hue"@ || x == "Saturation"@ || x == "Red Component"@
                || x == "Green Component"@ || x == "Blue Component"@))),
        offered_actions(target_type, caps).len() == 2 + (if caps.contains(Capability::Dim) { 1int } else { 0 })
            + (if caps.contains(Capability::Ct) { 1int } else { 0 })
            + (if caps.contains(Capability::Color) { 5int } else { 0 }),
{
    let p0: Seq<Seq<char>> = seq!["On/Off (Latch)"@, "On/Off (Momentary)"@];
    let p1: Seq<Seq<char>> = if caps.contains(Capability::Dim) { seq!["Brightness"@] } else { Seq::empty() };
    let p2: Seq<Seq<char>> = if caps.contains(Capability::Ct) { seq!["Color Temperature"@] } else { Seq::empty() };
    let p3: Seq<Seq<char>> = if caps.contains(Capability::Color) {
        seq!["Hue"@, "Saturation"@, "Red Component"@, "Green Component"@, "Blue Component"@]
    } else {
        Seq::empty()
    };
    assert(offered_actions(target_type, caps) == p0 + p1 + p2 + p3);
    lemma_concat_contains(p0 + p1 + p2, p3, x);
    lemma_concat_contains(p0 + p1, p2, x);
    lemma_concat_contains(p0, p1, x);
    lemma_list_contains(p0, x);
    lemma_list_contains(p1, x);
    lemma_list_contains(p2, x);
    lemma_list_contains(p3, x);
}

/// The mapping dialog offers, for any target but a scene, both power
/// toggles, brightness exactly with the dimming capability, colour
/// temperature exactly with that capability, and hue, saturation and the
/// three colour components exactly with the colour capability, whatever the
/// other capabilities, each once (the list is as long as the names it
/// holds); a scene is only recalled.
pub proof fn lemma_offered_actions(target_type: Seq<char>, caps: Set<Capability>)
    ensures
        target_type == "scene"@ ==> offered_actions(target_type, caps) == seq!["Recall Scene"@],
        target_type != "scene"@ ==> {
            let a = offered_actions(target_type, caps);
            &&& a.contains("On/Off (Latch)"@)
            &&& a.contains("On/Off (Momentary)"@)
            &&& a.contains("Brightness"@) <==> caps.contains(Capability::Dim)
            &&& a.contains("Color Temperature"@) <==> caps.contains(Capability::Ct)
            &&& a.contains("Hue"@) <==> caps.contains(Capability::Color)
            &&& a.contains("Saturation"@) <==> caps.contains(Capability::Color)
            &&& a.contains("Red Component"@) <==> caps.contains(Capability::Color)
            &&& a.contains("Green Component"@) <==> caps.contains(Capability::Color)
            &&& a.contains("Blue Component"@) <==> caps.contains(Capability::Color)
            &&& !a.contains("Recall Scene"@)
            &&& a.len() == 2 + (if caps.contains(Capability::Dim) { 1int } else { 0 })
                + (if caps.contains(Capability::Ct) { 1int } else { 0 })
                + (if caps.contains(Capability::Color) { 5int } else { 0 })
        },
{
    reveal_strlit("scene");
    reveal_strlit("Recall Scene");
    reveal_strlit("On/Off (Latch)");
    reveal_strlit("On/Off (Momentary)");
    reveal_strlit("Brightness");
    reveal_strlit("Color Temperature");
    reveal_strlit("Hue");
    reveal_strlit("Saturation");
    reveal_strlit("Red Component");
    reveal_strlit("Green Component");
    reveal_strlit("Blue Component");
    assert("Recall Scene"@.len() == 12);
    assert("On/Off (Latch)"@.len() == 14);
    assert("On/Off (Momentary)"@.len() == 18);
    assert("Brightness"@.len() == 10);
    assert("Color Temperature"@.len() == 17);
    assert("Hue"@.len() == 3);
    assert("Saturation"@.len() == 10);
    assert("Red Component"@.len() == 13);
    assert("Green Component"@.len() == 15);
    assert("Blue Component"@.len() == 14);
    // Names of equal length differ in their first letter.
    assert("Brightness"@[0] != "Saturation"@[0]);
    assert("On/Off (Latch)"@[0] != "Blue Component"@[0]);
    if target_type != "scene"@ {
        lemma_offered_contains(target_type, caps, "On/Off (Latch)"@);
        lemma_offered_contains(target_type, caps, "On/Off (Momentary)"@);
        lemma_offered_contains(target_type, caps, "Brightness"@);
        lemma_offered_contains(target_type, caps, "Color Temperature"@);
        lemma_offered_contains(target_type, caps, "Hue"@);
        lemma_offered_contains(target_type, caps, "Saturation"@);
        lemma_offered_contains(target_type, caps, "Red Component"@);
        lemma_offered_contains(target_type, caps, "Green Component"@);
        lemma_offered_contains(target_type, caps, "Blue Component"@);
        lemma_offered_contains(target_type, caps, "Recall Scene"@);
    }
}

/// Double clicking a widget sends the opposite of the power it shows (on
/// when it shows none), and nothing else; the power switch and the
/// brightness slider send exactly the value they were set to.
pub proof fn lemma_widget_controls(on: Option<bool>, to: bool, bri: u8)
    ensures
        power_body(on != Some(true))
            == (StateBody { on: Some(!(on == Some(true))), bri: None, hue: None, sat: None, ct: None, scene: None }),
        on == Some(true) ==> power_body(on != Some(true)).on == Some(false),
        on != Some(true) ==> power_body(on != Some(true)).on == Some(true),
        power_body(to) == (StateBody { on: Some(to), bri: None, hue: None, sat: None, ct: None, scene: None }),
        brightness_body(bri) == (StateBody { on: None, bri: Some(bri), hue: None, sat: None, ct: None, scene: None }),
{
}

} // verus!
