//! Command bodies sent to the bridge for a light or a group, how queued bodies
//! merge, and how a body changes the cached state of a light or group.

use vstd::prelude::*;
use crate::hue::types::{LightState, GroupAction, Light, Group};

verus! {

/// A command for one light or group: each present field is a property to set.
/// A `scene` field recalls that scene on a group.
#[derive(Debug, Clone, Default)]
pub struct StateBody {
    pub on: Option<bool>,
    pub bri: Option<u8>,
    pub hue: Option<u16>,
    pub sat: Option<u8>,
    pub ct: Option<u16>,
    pub scene: Option<String>,
}

/// `later` if it is present, `earlier` otherwise.
pub open spec fn override_opt<T>(earlier: Option<T>, later: Option<T>) -> Option<T> {
    if later is Some {
        later
    } else {
        earlier
    }
}

/// The body that carries every property of `b`, and those of `a` that `b`
/// does not set.
pub open spec fn merged(a: StateBody, b: StateBody) -> StateBody {
    StateBody {
        on: override_opt(a.on, b.on),
        bri: override_opt(a.bri, b.bri),
        hue: override_opt(a.hue, b.hue),
        sat: override_opt(a.sat, b.sat),
        ct: override_opt(a.ct, b.ct),
        scene: override_opt(a.scene, b.scene),
    }
}

/// A body that sets nothing.
pub open spec fn body_is_empty(b: StateBody) -> bool {
    b.on is None && b.bri is None && b.hue is None && b.sat is None && b.ct is None && b.scene is None
}

/// A light state after the body's power, brightness, hue, saturation and
/// colour temperature were applied to it.
pub open spec fn applied_light_state(s: LightState, b: StateBody) -> LightState {
    LightState {
        on: override_opt(s.on, b.on),
        bri: override_opt(s.bri, b.bri),
        hue: override_opt(s.hue, b.hue),
        sat: override_opt(s.sat, b.sat),
        ct: override_opt(s.ct, b.ct),
        ..s
    }
}

/// A group action after the body's power, brightness, hue, saturation and
/// colour temperature were applied to it.
pub open spec fn applied_group_action(s: GroupAction, b: StateBody) -> GroupAction {
    GroupAction {
        on: override_opt(s.on, b.on),
        bri: override_opt(s.bri, b.bri),
        hue: override_opt(s.hue, b.hue),
        sat: override_opt(s.sat, b.sat),
        ct: override_opt(s.ct, b.ct),
        ..s
    }
}

/// A light after the body was applied to its state.
pub open spec fn applied_light(l: Light, b: StateBody) -> Light {
    Light { state: applied_light_state(l.state, b), ..l }
}

/// A group after the body was applied to its action.
pub open spec fn applied_group(g: Group, b: StateBody) -> Group {
    Group { action: applied_group_action(g.action, b), ..g }
}

impl StateBody {
    /// A body that sets nothing.
    pub fn empty() -> (b: StateBody)
        ensures
            body_is_empty(b),
    {
        StateBody { on: None, bri: None, hue: None, sat: None, ct: None, scene: None }
    }

    /// Whether the body sets nothing.
    pub fn is_empty(&self) -> (e: bool)
        ensures
            e == body_is_empty(*self),
    {
        self.on.is_none() && self.bri.is_none() && self.hue.is_none() && self.sat.is_none()
            && self.ct.is_none() && self.scene.is_none()
    }

    /// Merges a later body into this one: every property that `later` sets
    /// replaces the one queued before.
    pub fn merge(&mut self, later: StateBody)
        ensures
            *final(self) == merged(*old(self), later),
    {
        if later.on.is_some() {
            self.on = later.on;
        }
        if later.bri.is_some() {
            self.bri = later.bri;
        }
        if later.hue.is_some() {
            self.hue = later.hue;
        }
        if later.sat.is_some() {
            self.sat = later.sat;
        }
        if later.ct.is_some() {
            self.ct = later.ct;
        }
        if later.scene.is_some() {
            self.scene = later.scene;
        }
    }
}

impl LightState {
    /// Applies a body's power, brightness, hue, saturation and colour
    /// temperature to this state.
    pub fn apply(&mut self, b: &StateBody)
        ensures
            *final(self) == applied_light_state(*old(self), *b),
    {
        if let Some(on) = b.on {
            self.on = Some(on);
        }
        if let Some(bri) = b.bri {
            self.bri = Some(bri);
        }
        if let Some(hue) = b.hue {
            self.hue = Some(hue);
        }
        if let Some(sat) = b.sat {
            self.sat = Some(sat);
        }
        if let Some(ct) = b.ct {
            self.ct = Some(ct);
        }
    }
}

impl GroupAction {
    /// Applies a body's power, brightness, hue, saturation and colour
    /// temperature to this action.
    pub fn apply(&mut self, b: &StateBody)
        ensures
            *final(self) == applied_group_action(*old(self), *b),
    {
        if let Some(on) = b.on {
            self.on = Some(on);
        }
        if let Some(bri) = b.bri {
            self.bri = Some(bri);
        }
        if let Some(hue) = b.hue {
            self.hue = Some(hue);
        }
        if let Some(sat) = b.sat {
            self.sat = Some(sat);
        }
        if let Some(ct) = b.ct {
            self.ct = Some(ct);
        }
    }
}

/// The later body wins: merging takes every field that the later body
/// sets from it, and keeps every other field of the earlier body.
pub proof fn lemma_merge_later_wins(a: StateBody, b: StateBody)
    ensures
        b.on is Some ==> merged(a, b).on == b.on,
        b.on is None ==> merged(a, b).on == a.on,
        b.bri is Some ==> merged(a, b).bri == b.bri,
        b.bri is None ==> merged(a, b).bri == a.bri,
        b.hue is Some ==> merged(a, b).hue == b.hue,
        b.hue is None ==> merged(a, b).hue == a.hue,
        b.sat is Some ==> merged(a, b).sat == b.sat,
        b.sat is None ==> merged(a, b).sat == a.sat,
        b.ct is Some ==> merged(a, b).ct == b.ct,
        b.ct is None ==> merged(a, b).ct == a.ct,
        b.scene is Some ==> merged(a, b).scene == b.scene,
        b.scene is None ==> merged(a, b).scene == a.scene,
{
}

/// A command updates the cache as the bridge would: every property that the
/// body sets takes the body's value, every other property, and the colour
/// point and reachability, stay as they were.
pub proof fn lemma_apply_sets_fields(s: LightState, g: GroupAction, b: StateBody)
    ensures
        b.on is Some ==> applied_light_state(s, b).on == b.on && applied_group_action(g, b).on == b.on,
        b.on is None ==> applied_light_state(s, b).on == s.on && applied_group_action(g, b).on == g.on,
        b.bri is Some ==> applied_light_state(s, b).bri == b.bri && applied_group_action(g, b).bri == b.bri,
        b.bri is None ==> applied_light_state(s, b).bri == s.bri && applied_group_action(g, b).bri == g.bri,
        b.hue is Some ==> applied_light_state(s, b).hue == b.hue && applied_group_action(g, b).hue == b.hue,
        b.hue is None ==> applied_light_state(s, b).hue == s.hue && applied_group_action(g, b).hue == g.hue,
        b.sat is Some ==> applied_light_state(s, b).sat == b.sat && applied_group_action(g, b).sat == b.sat,
        b.sat is None ==> applied_light_state(s, b).sat == s.sat && applied_group_action(g, b).sat == g.sat,
        b.ct is Some ==> applied_light_state(s, b).ct == b.ct && applied_group_action(g, b).ct == b.ct,
        b.ct is None ==> applied_light_state(s, b).ct == s.ct && applied_group_action(g, b).ct == g.ct,
        applied_light_state(s, b).xy == s.xy,
        applied_light_state(s, b).reachable == s.reachable,
        applied_group_action(g, b).xy == g.xy,
{
}

/// Applying two bodies one after the other changes a light's state as applying
/// their merge once: a queue that merges bodies loses no change.
pub proof fn lemma_merge_then_apply_light(s: LightState, a: StateBody, b: StateBody)
    ensures
        applied_light_state(applied_light_state(s, a), b) == applied_light_state(s, merged(a, b)),
{
}

/// Applying two bodies one after the other changes a group's action as
/// applying their merge once.
pub proof fn lemma_merge_then_apply_group(s: GroupAction, a: StateBody, b: StateBody)
    ensures
        applied_group_action(applied_group_action(s, a), b) == applied_group_action(s, merged(a, b)),
{
}

/// Merging is associative: queueing three bodies gives the same body however
/// the merges are grouped.
pub proof fn lemma_merge_associative(a: StateBody, b: StateBody, c: StateBody)
    ensures
        merged(merged(a, b), c) == merged(a, merged(b, c)),
{
}

/// Merging a body into itself changes nothing, and an empty body is neutral
/// on both sides.
pub proof fn lemma_merge_idempotent_and_neutral(a: StateBody, e: StateBody)
    requires
        body_is_empty(e),
    ensures
        merged(a, a) == a,
        merged(a, e) == a,
        merged(e, a) == a,
{
}

/// The value of one field of a command body as the bridge's JSON carries it.
#[derive(Debug, Clone)]
pub enum FieldValue {
    /// A JSON boolean.
    Flag(bool),
    /// A JSON number.
    Number(u16),
    /// A JSON string.
    Text(String),
}

/// The field named `name` with value `v`, when present.
pub open spec fn field_if<T>(name: Seq<char>, v: Option<T>, f: spec_fn(T) -> FieldValue) -> Seq<(Seq<char>, FieldValue)> {
    match v {
        Some(x) => seq![(name, f(x))],
        None => Seq::empty(),
    }
}

/// The JSON object that the bridge is sent for a body: one member per
/// present field, named `on`, `bri`, `hue`, `sat`, `ct` and `scene`, in
/// that order.
pub open spec fn body_fields(b: StateBody) -> Seq<(Seq<char>, FieldValue)> {
    field_if("on"@, b.on, |x: bool| FieldValue::Flag(x))
        + field_if("bri"@, b.bri, |x: u8| FieldValue::Number(x as u16))
        + field_if("hue"@, b.hue, |x: u16| FieldValue::Number(x))
        + field_if("sat"@, b.sat, |x: u8| FieldValue::Number(x as u16))
        + field_if("ct"@, b.ct, |x: u16| FieldValue::Number(x))
        + field_if("scene"@, b.scene, |x: String| FieldValue::Text(x))
}

impl StateBody {
    /// The members of the JSON object that the bridge is sent for this
    /// body; see [`body_fields`].
    pub fn json_fields(&self) -> (f: Vec<(String, FieldValue)>)
        ensures
            f@.len() == body_fields(*self).len(),
            forall|i: int| 0 <= i < f@.len() ==> {
                &&& (#[trigger] f@[i]).0@ == body_fields(*self)[i].0
                &&& f@[i].1 == body_fields(*self)[i].1
            },
    {
        let mut f: Vec<(String, FieldValue)> = Vec::new();
        let ghost mut model: Seq<(Seq<char>, FieldValue)> = Seq::empty();
        if let Some(on) = self.on {
            f.push((String::from_str("on"), FieldValue::Flag(on)));
        }
        proof { model = model + field_if("on"@, self.on, |x: bool| FieldValue::Flag(x)); }
        if let Some(bri) = self.bri {
            f.push((String::from_str("bri"), FieldValue::Number(bri as u16)));
        }
        proof { model = model + field_if("bri"@, self.bri, |x: u8| FieldValue::Number(x as u16)); }
        if let Some(hue) = self.hue {
            f.push((String::from_str("hue"), FieldValue::Number(hue)));
        }
        proof { model = model + field_if("hue"@, self.hue, |x: u16| FieldValue::Number(x)); }
        if let Some(sat) = self.sat {
            f.push((String::from_str("sat"), FieldValue::Number(sat as u16)));
        }
        proof { model = model + field_if("sat"@, self.sat, |x: u8| FieldValue::Number(x as u16)); }
        if let Some(ct) = self.ct {
            f.push((String::from_str("ct"), FieldValue::Number(ct)));
        }
        proof { model = model + field_if("ct"@, self.ct, |x: u16| FieldValue::Number(x)); }
        if let Some(scene) = &self.scene {
            f.push((String::from_str("scene"), FieldValue::Text(scene.clone())));
        }
        proof { model = model + field_if("scene"@, self.scene, |x: String| FieldValue::Text(x)); }
        assert(model =~= body_fields(*self));
        f
    }
}

} // verus!
