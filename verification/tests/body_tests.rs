use huemidity::body::{FieldValue, StateBody};
use huemidity::hue::types::{GroupAction, LightState};
use huemidity::strmap::{StrMap, StrSet};

fn body(on: Option<bool>, bri: Option<u8>, hue: Option<u16>) -> StateBody {
    StateBody { on, bri, hue, sat: None, ct: None, scene: None }
}

#[test]
fn merge_overrides_and_keeps() {
    let mut a = body(Some(true), Some(10), None);
    a.merge(body(None, Some(20), Some(300)));
    assert_eq!(a.on, Some(true));
    assert_eq!(a.bri, Some(20));
    assert_eq!(a.hue, Some(300));
    assert!(a.scene.is_none());
}

#[test]
fn merge_with_empty_is_neutral() {
    let mut a = body(Some(false), Some(1), Some(2));
    a.merge(StateBody::empty());
    assert_eq!((a.on, a.bri, a.hue), (Some(false), Some(1), Some(2)));
    assert!(StateBody::empty().is_empty());
    assert!(!a.is_empty());
}

#[test]
fn apply_twice_equals_apply_merged() {
    let a = body(Some(true), Some(10), None);
    let b = body(Some(false), None, Some(7));
    let mut s1 = LightState { ct: Some(200), ..Default::default() };
    s1.apply(&a);
    s1.apply(&b);
    let mut m = a.clone();
    m.merge(b.clone());
    let mut s2 = LightState { ct: Some(200), ..Default::default() };
    s2.apply(&m);
    assert_eq!((s1.on, s1.bri, s1.hue, s1.ct), (s2.on, s2.bri, s2.hue, s2.ct));
    assert_eq!((s2.on, s2.bri, s2.hue, s2.ct), (Some(false), Some(10), Some(7), Some(200)));
}

#[test]
fn apply_to_group_action() {
    let mut g = GroupAction::default();
    g.apply(&StateBody { on: Some(true), bri: None, hue: None, sat: Some(5), ct: Some(300), scene: Some("x".to_string()) });
    assert_eq!((g.on, g.sat, g.ct, g.bri), (Some(true), Some(5), Some(300), None));
}

#[test]
fn strmap_insert_get_remove() {
    let mut m: StrMap<u64> = StrMap::new();
    assert!(m.is_empty());
    m.insert("a".to_string(), 1);
    m.insert("b".to_string(), 2);
    m.insert("a".to_string(), 3);
    assert_eq!(m.len(), 2);
    assert_eq!(m.get(&"a".to_string()), Some(&3));
    assert_eq!(m.key(0), "a");
    assert_eq!(m.remove(&"a".to_string()), Some(3));
    assert_eq!(m.remove(&"a".to_string()), None);
    assert!(!m.contains_key(&"a".to_string()));
    assert_eq!(m.find(&"b".to_string()), Some(0));
    let c = m.clone();
    assert_eq!(c.get(&"b".to_string()), Some(&2));
    m.clear();
    assert!(m.is_empty());
}

#[test]
fn strmap_positions_survive_remove_and_insert_at() {
    let mut m: StrMap<u8> = StrMap::new();
    m.insert("x".to_string(), 1);
    m.insert("y".to_string(), 2);
    m.insert("z".to_string(), 3);
    let (k, v) = m.remove_at(1);
    assert_eq!((k.as_str(), v), ("y", 2));
    m.insert_at(1, k, v + 10);
    assert_eq!(m.key(1), "y");
    assert_eq!(*m.value(1), 12);
}

#[test]
fn strset_basics() {
    let mut s = StrSet::new();
    s.insert("1".to_string());
    s.insert("2".to_string());
    s.insert("1".to_string());
    assert_eq!(s.len(), 2);
    assert!(s.contains(&"2".to_string()));
    s.remove(&"2".to_string());
    assert!(!s.contains(&"2".to_string()));
    assert_eq!(s.elem(0), "1");
    s.clear();
    assert_eq!(s.len(), 0);
}

#[test]
fn json_fields_follow_the_bridge_names_in_order() {
    let b = StateBody { on: Some(true), bri: Some(200), hue: None, sat: Some(7), ct: Some(300), scene: Some("abc".to_string()) };
    let f = b.json_fields();
    let names: Vec<&str> = f.iter().map(|(n, _)| n.as_str()).collect();
    assert_eq!(names, vec!["on", "bri", "sat", "ct", "scene"]);
    assert!(matches!(f[0].1, FieldValue::Flag(true)));
    assert!(matches!(f[1].1, FieldValue::Number(200)));
    assert!(matches!(f[2].1, FieldValue::Number(7)));
    assert!(matches!(f[3].1, FieldValue::Number(300)));
    assert!(matches!(&f[4].1, FieldValue::Text(s) if s == "abc"));
    assert!(StateBody::default().json_fields().is_empty());
}
