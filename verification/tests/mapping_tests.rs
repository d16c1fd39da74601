use huemidity::body::StateBody;
use huemidity::mapping::{
    classify_action, evaluate_mapping, inversion_would_underflow, scale_ct, scale_hue, scale_level, color_body,
    ActionKind, ColorComponent, MidiOutcome,
};

fn body(on: Option<bool>, bri: Option<u8>, hue: Option<u16>, sat: Option<u8>, ct: Option<u16>) -> StateBody {
    StateBody { on, bri, hue, sat, ct, scene: None }
}

fn dispatched(o: MidiOutcome) -> StateBody {
    match o {
        MidiOutcome::Dispatch(b) => b,
        other => panic!("expected a command, got {:?}", other),
    }
}

fn same(a: &StateBody, b: &StateBody) -> bool {
    a.on == b.on && a.bri == b.bri && a.hue == b.hue && a.sat == b.sat && a.ct == b.ct && a.scene == b.scene
}

#[test]
fn integer_scales_match_float_scales_for_every_byte() {
    for raw in 0u16..=255 {
        let r = raw as u8;
        let bri = (r as f32 * (254.0 / 127.0)) as u8;
        let hue = (r as f32 * (65535.0 / 127.0)) as u16;
        let ct = (153.0 + (r as f32 * (347.0 / 127.0))) as u16;
        assert_eq!(scale_level(r), bri, "level {}", r);
        assert_eq!(scale_hue(r), hue, "hue {}", r);
        assert_eq!(scale_ct(r), ct, "ct {}", r);
    }
}

#[test]
fn scale_values() {
    assert_eq!(scale_level(0), 0);
    assert_eq!(scale_level(64), 128);
    assert_eq!(scale_level(127), 254);
    assert_eq!(scale_level(200), 255);
    assert_eq!(scale_hue(1), 516);
    assert_eq!(scale_hue(127), 65535);
    assert_eq!(scale_ct(0), 153);
    assert_eq!(scale_ct(64), 327);
    assert_eq!(scale_ct(127), 500);
}

#[test]
fn action_names() {
    assert_eq!(classify_action(&"Brightness".to_string()), ActionKind::Brightness);
    assert_eq!(classify_action(&"Hue".to_string()), ActionKind::Hue);
    assert_eq!(classify_action(&"Saturation".to_string()), ActionKind::Saturation);
    assert_eq!(classify_action(&"Color Temperature".to_string()), ActionKind::ColorTemperature);
    assert_eq!(classify_action(&"On/Off (Latch)".to_string()), ActionKind::OnOffLatch);
    assert_eq!(classify_action(&"On/Off (Momentary)".to_string()), ActionKind::OnOffMomentary);
    assert_eq!(classify_action(&"Recall Scene".to_string()), ActionKind::RecallScene);
    assert_eq!(classify_action(&"Red Component".to_string()), ActionKind::RedComponent);
    assert_eq!(classify_action(&"Green Component".to_string()), ActionKind::GreenComponent);
    assert_eq!(classify_action(&"Blue Component".to_string()), ActionKind::BlueComponent);
    assert_eq!(classify_action(&"brightness".to_string()), ActionKind::Unknown);
}

#[test]
fn brightness_zero_switches_off() {
    let b = dispatched(evaluate_mapping(ActionKind::Brightness, false, true, true, 0, false));
    assert!(same(&b, &body(Some(false), None, None, None, None)));
}

#[test]
fn brightness_with_auto_on() {
    let b = dispatched(evaluate_mapping(ActionKind::Brightness, false, true, true, 100, false));
    assert!(same(&b, &body(Some(true), Some(200), None, None, None)));
    let b = dispatched(evaluate_mapping(ActionKind::Brightness, false, false, true, 100, false));
    assert!(same(&b, &body(None, Some(200), None, None, None)));
}

#[test]
fn inverted_ends() {
    let b = dispatched(evaluate_mapping(ActionKind::Brightness, true, true, true, 127, false));
    assert!(same(&b, &body(Some(false), None, None, None, None)));
    let b = dispatched(evaluate_mapping(ActionKind::Brightness, true, false, true, 0, false));
    assert!(same(&b, &body(None, Some(254), None, None, None)));
    let b = dispatched(evaluate_mapping(ActionKind::Hue, true, false, true, 127, false));
    assert!(same(&b, &body(None, None, Some(0), None, None)));
    let b = dispatched(evaluate_mapping(ActionKind::Hue, true, false, true, 0, false));
    assert!(same(&b, &body(None, None, Some(65535), None, None)));
    let b = dispatched(evaluate_mapping(ActionKind::Saturation, true, false, true, 0, false));
    assert!(same(&b, &body(None, None, None, Some(254), None)));
    let b = dispatched(evaluate_mapping(ActionKind::ColorTemperature, true, false, true, 127, false));
    assert!(same(&b, &body(None, None, None, None, Some(153))));
    let b = dispatched(evaluate_mapping(ActionKind::ColorTemperature, true, true, true, 0, false));
    assert!(same(&b, &body(Some(true), None, None, None, Some(500))));
}

#[test]
fn latch_follows_control_and_toggles_on_notes() {
    let b = dispatched(evaluate_mapping(ActionKind::OnOffLatch, false, true, true, 64, true));
    assert!(same(&b, &body(Some(true), None, None, None, None)));
    let b = dispatched(evaluate_mapping(ActionKind::OnOffLatch, false, true, true, 63, false));
    assert!(same(&b, &body(Some(false), None, None, None, None)));
    let b = dispatched(evaluate_mapping(ActionKind::OnOffLatch, false, true, false, 5, true));
    assert!(same(&b, &body(Some(false), None, None, None, None)));
    assert!(matches!(evaluate_mapping(ActionKind::OnOffLatch, false, true, false, 0, true), MidiOutcome::Ignore));
}

#[test]
fn momentary_toggles_on_press_only() {
    let b = dispatched(evaluate_mapping(ActionKind::OnOffMomentary, false, true, true, 100, false));
    assert!(same(&b, &body(Some(true), None, None, None, None)));
    assert!(matches!(evaluate_mapping(ActionKind::OnOffMomentary, false, true, true, 10, false), MidiOutcome::Ignore));
    assert!(matches!(evaluate_mapping(ActionKind::OnOffMomentary, false, true, false, 0, false), MidiOutcome::Ignore));
}

#[test]
fn scene_and_components() {
    assert!(matches!(evaluate_mapping(ActionKind::RecallScene, false, true, false, 1, false), MidiOutcome::RecallScene));
    assert!(matches!(evaluate_mapping(ActionKind::RecallScene, false, true, true, 63, false), MidiOutcome::Ignore));
    assert!(matches!(evaluate_mapping(ActionKind::RedComponent, false, true, true, 3, false), MidiOutcome::MixColor(ColorComponent::Red)));
    assert!(matches!(evaluate_mapping(ActionKind::GreenComponent, true, true, true, 3, false), MidiOutcome::MixColor(ColorComponent::Green)));
    assert!(matches!(evaluate_mapping(ActionKind::BlueComponent, false, false, false, 0, false), MidiOutcome::MixColor(ColorComponent::Blue)));
    assert!(matches!(evaluate_mapping(ActionKind::Unknown, false, true, true, 3, false), MidiOutcome::Ignore));
}

#[test]
fn underflow_conditions() {
    assert!(inversion_would_underflow(ActionKind::Brightness, true, 128));
    assert!(!inversion_would_underflow(ActionKind::Brightness, true, 127));
    assert!(!inversion_would_underflow(ActionKind::Brightness, false, 255));
    assert!(inversion_would_underflow(ActionKind::Saturation, true, 200));
    assert!(!inversion_would_underflow(ActionKind::ColorTemperature, true, 183));
    assert!(inversion_would_underflow(ActionKind::ColorTemperature, true, 184));
    assert!(!inversion_would_underflow(ActionKind::Hue, true, 255));
}

#[test]
fn colour_body_fields() {
    let b = color_body(1000, 20, 30, true);
    assert!(same(&b, &body(Some(true), Some(30), Some(1000), Some(20), None)));
    let b = color_body(1, 2, 3, false);
    assert!(same(&b, &body(None, Some(3), Some(1), Some(2), None)));
}
