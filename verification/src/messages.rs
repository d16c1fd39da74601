//! The messages that the user interface and the bridge worker exchange.

use vstd::prelude::*;
use crate::body::StateBody;
use crate::config::AppConfig;
use crate::hue::BridgeConnectionState;
use crate::hue::types::{Light, Group, Scene};
use crate::midi::MidiEvent;
use crate::strmap::StrMap;

verus! {

/// From the worker to the user interface.
#[derive(Debug, Clone)]
pub enum GuiMessage {
    MidiActivity(MidiEvent),
    HueConnectionState(BridgeConnectionState),
    DevicesRefreshed { lights: StrMap<Light>, groups: StrMap<Group>, scenes: StrMap<Scene> },
    MidiStatus(String),
    Error(String),
}

/// From the user interface (and the MIDI listener) to the worker.
#[derive(Debug, Clone)]
pub enum BgMessage {
    ConnectManual(String),
    StartAutoDiscovery,
    ForgetBridge,
    RefreshDevices,
    SetLightState { light_id: String, state: StateBody },
    SetGroupAction { group_id: String, action: StateBody },
    RecallScene { group_id: String, scene_id: String },
    ChangeMidiPort(String),
    UpdateConfig(AppConfig),
    MidiInputReceived(MidiEvent),
}

} // verus!
