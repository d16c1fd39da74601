use huemidity::config::AppConfig;
use huemidity::hue::api::{
    api_url, group_action_url, groups_url, interpret_registration, light_state_url, lights_url, scenes_url, HueApiError,
    HueApiResponseItem, HueApiSuccess,
};
use huemidity::hue::types::{capabilities_from, CapSet, Capability, Light, LightState};
use huemidity::hue::{startup_connection_state, BridgeConnectionState};

fn light(kind: &str, state: LightState) -> Light {
    Light { name: "L".to_string(), light_type: kind.to_string(), state, modelid: String::new(), uniqueid: String::new() }
}

fn caps(c: &CapSet) -> (bool, bool, bool) {
    (c.contains(Capability::Dim), c.contains(Capability::Ct), c.contains(Capability::Color))
}

#[test]
fn reported_fields_decide_capabilities() {
    let l = light("Extended color light", LightState { bri: Some(1), ..Default::default() });
    assert_eq!(caps(&l.capabilities()), (true, false, false));
    let l = light("x", LightState { ct: Some(300), xy: Some(vec![0, 0]), ..Default::default() });
    assert_eq!(caps(&l.capabilities()), (false, true, true));
    let l = light("x", LightState { sat: Some(3), ..Default::default() });
    assert_eq!(caps(&l.capabilities()), (false, false, true));
}

#[test]
fn product_type_decides_when_nothing_reported() {
    assert_eq!(caps(&light("Extended COLOR light", LightState::default()).capabilities()), (true, true, true));
    assert_eq!(caps(&light("Color temperature light", LightState::default()).capabilities()), (true, true, true));
    assert_eq!(caps(&light("Color TEMPERATURE", LightState::default()).capabilities()), (true, true, true));
    assert_eq!(caps(&light("Warm TEMP bulb", LightState::default()).capabilities()), (true, true, false));
    assert_eq!(caps(&light("Dimmable light", LightState::default()).capabilities()), (true, false, false));
    assert_eq!(caps(&light("On/Off plug-in unit", LightState::default()).capabilities()), (true, false, false));
}

#[test]
fn capabilities_from_lowered_type() {
    assert_eq!(caps(&capabilities_from(&LightState::default(), "colour lamp")), (true, false, false));
    assert_eq!(caps(&capabilities_from(&LightState::default(), "xcolorx")), (true, true, true));
    let mut s = CapSet::empty();
    assert!(s.is_empty());
    s.insert(Capability::Ct);
    s.extend(&CapSet::full());
    assert_eq!(caps(&s), (true, true, true));
}

#[test]
fn request_addresses() {
    assert_eq!(api_url("192.168.1.2"), "http://192.168.1.2/api");
    assert_eq!(lights_url("10.0.0.1", "key"), "http://10.0.0.1/api/key/lights");
    assert_eq!(groups_url("10.0.0.1", "key"), "http://10.0.0.1/api/key/groups");
    assert_eq!(scenes_url("10.0.0.1", "key"), "http://10.0.0.1/api/key/scenes");
    assert_eq!(light_state_url("h", "u", "7"), "http://h/api/u/lights/7/state");
    assert_eq!(group_action_url("h", "u", "0"), "http://h/api/u/groups/0/action");
}

fn ok(name: &str) -> HueApiResponseItem {
    HueApiResponseItem { success: Some(HueApiSuccess { username: name.to_string() }), error: None }
}

fn err(t: u32, d: &str) -> HueApiResponseItem {
    HueApiResponseItem { success: None, error: Some(HueApiError { error_type: t, description: d.to_string() }) }
}

#[test]
fn registration_answers() {
    assert_eq!(interpret_registration(&vec![ok("abc")]), Ok(Some("abc".to_string())));
    assert_eq!(interpret_registration(&vec![err(101, "link button not pressed")]), Ok(None));
    assert_eq!(interpret_registration(&vec![err(7, "invalid value")]), Err("invalid value".to_string()));
    assert_eq!(interpret_registration(&vec![]), Ok(None));
    let empty = HueApiResponseItem { success: None, error: None };
    assert_eq!(interpret_registration(&vec![empty.clone(), err(101, "x"), ok("later")]), Ok(None));
    assert_eq!(interpret_registration(&vec![empty, ok("k"), err(7, "y")]), Ok(Some("k".to_string())));
}

#[test]
fn startup_states() {
    let mut c = AppConfig::default();
    assert!(startup_connection_state(&c) == BridgeConnectionState::Searching);
    c.bridge_ip = "1.2.3.4".to_string();
    assert!(startup_connection_state(&c) == BridgeConnectionState::NeedsLink { ip: "1.2.3.4".to_string(), countdown: 30 });
    c.bridge_username = "u".to_string();
    assert!(
        startup_connection_state(&c)
            == BridgeConnectionState::Connected { ip: "1.2.3.4".to_string(), username: "u".to_string() }
    );
    c.bridge_ip = String::new();
    assert!(startup_connection_state(&c) == BridgeConnectionState::Searching);
}

#[test]
fn state_equality() {
    assert!(BridgeConnectionState::Error("a".to_string()) != BridgeConnectionState::Error("b".to_string()));
    assert!(BridgeConnectionState::Idle != BridgeConnectionState::Searching);
    let s = BridgeConnectionState::NeedsLink { ip: "x".to_string(), countdown: 3 };
    assert!(s.duplicate() == s);
    assert!(!s.is_connected());
}
