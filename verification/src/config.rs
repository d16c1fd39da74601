//! The persisted configuration: bridge credentials, selected MIDI device,
//! dashboard layout and the MIDI mappings of each device.

use vstd::prelude::*;
use crate::strmap::StrMap;

verus! {

/// One widget of the dashboard: a light or a group.
#[derive(Debug, Clone, Default)]
pub struct DashboardItem {
    /// `light` or `group`.
    pub item_type: String,
    pub id: String,
}

/// What one MIDI event of a device controls.
#[derive(Debug, Clone)]
pub struct Mapping {
    /// `light`, `group` or `scene`.
    pub target_type: String,
    pub target_id: String,
    /// `Brightness`, `Recall Scene`, `On/Off (Latch)`, and so on.
    pub action: String,
    pub invert: bool,
    pub auto_on: bool,
}

impl Mapping {
    /// The same mapping, as an independent value.
    pub fn duplicate(&self) -> (m: Mapping)
        ensures
            m == *self,
    {
        Mapping {
            target_type: self.target_type.clone(),
            target_id: self.target_id.clone(),
            action: self.action.clone(),
            invert: self.invert,
            auto_on: self.auto_on,
        }
    }
}

/// The configuration of the application.
#[derive(Debug, Clone)]
pub struct AppConfig {
    pub bridge_ip: String,
    /// The developer key that the bridge issued.
    pub bridge_username: String,
    pub selected_device: String,
    pub autostart: bool,
    pub dashboard_layout: Vec<DashboardItem>,
    /// Device name, then event key, to mapping.
    pub mappings: StrMap<StrMap<Mapping>>,
}

impl AppConfig {
    /// Whether the device `device` maps the event `key`.
    pub open spec fn has_mapping(&self, device: Seq<char>, key: Seq<char>) -> bool {
        self.mappings@.contains_key(device) && self.mappings@[device]@.contains_key(key)
    }

    /// The mapping of event `key` on device `device`.
    pub open spec fn mapping_of(&self, device: Seq<char>, key: Seq<char>) -> Mapping {
        self.mappings@[device]@[key]
    }

    /// The mapping of event `key` on device `device`, if any.
    pub fn mapping_for(&self, device: &String, key: &String) -> (r: Option<&Mapping>)
        ensures
            r is Some <==> self.has_mapping(device@, key@),
            r matches Some(m) ==> *m == self.mapping_of(device@, key@),
    {
        match self.mappings.get(device) {
            Some(maps) => maps.get(key),
            None => None,
        }
    }
}

impl Default for AppConfig {
    fn default() -> (c: AppConfig)
        ensures
            c.bridge_ip@ == Seq::<char>::empty(),
            c.bridge_username@ == Seq::<char>::empty(),
            c.selected_device@ == Seq::<char>::empty(),
            !c.autostart,
            c.dashboard_layout@ == Seq::<DashboardItem>::empty(),
            c.mappings@ == Map::<Seq<char>, StrMap<Mapping>>::empty(),
    {
        AppConfig {
            bridge_ip: String::new(),
            bridge_username: String::new(),
            selected_device: String::new(),
            autostart: false,
            dashboard_layout: Vec::new(),
            mappings: StrMap::new(),
        }
    }
}

} // verus!
