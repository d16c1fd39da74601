//! How a MIDI controller value becomes a command for a light or group,
//! according to the action that a mapping names.

use vstd::prelude::*;
use crate::body::StateBody;

verus! {

/// The actions that a mapping can name.
#[derive(Debug, Clone, Copy, PartialEq, Eq, Structural)]
pub enum ActionKind {
    Brightness,
    Hue,
    Saturation,
    ColorTemperature,
    OnOffLatch,
    OnOffMomentary,
    RecallScene,
    RedComponent,
    GreenComponent,
    BlueComponent,
    /// A name that no action has.
    Unknown,
}

/// The action that a mapping's action name denotes.
pub open spec fn action_kind(name: Seq<char>) -> ActionKind {
    if name == "Brightness"@ {
        ActionKind::Brightness
    } else if name == "Hue"@ {
        ActionKind::Hue
    } else if name == "Saturation"@ {
        ActionKind::Saturation
    } else if name == "Color Temperature"@ {
        ActionKind::ColorTemperature
    } else if name == "On/Off (Latch)"@ {
        ActionKind::OnOffLatch
    } else if name == "On/Off (Momentary)"@ {
        ActionKind::OnOffMomentary
    } else if name == "Recall Scene"@ {
        ActionKind::RecallScene
    } else if name == "Red Component"@ {
        ActionKind::RedComponent
    } else if name == "Green Component"@ {
        ActionKind::GreenComponent
    } else if name == "Blue Component"@ {
        ActionKind::BlueComponent
    } else {
        ActionKind::Unknown
    }
}

fn name_is(name: &String, lit: &str) -> (b: bool)
    ensures
        b == (name@ == lit@),
{
    *name == String::from_str(lit)
}

/// The action that `name` denotes.
pub fn classify_action(name: &String) -> (k: ActionKind)
    ensures
        k == action_kind(name@),
{
    if name_is(name, "Brightness") {
        ActionKind::Brightness
    } else if name_is(name, "Hue") {
        ActionKind::Hue
    } else if name_is(name, "Saturation") {
        ActionKind::Saturation
    } else if name_is(name, "Color Temperature") {
        ActionKind::ColorTemperature
    } else if name_is(name, "On/Off (Latch)") {
        ActionKind::OnOffLatch
    } else if name_is(name, "On/Off (Momentary)") {
        ActionKind::OnOffMomentary
    } else if name_is(name, "Recall Scene") {
        ActionKind::RecallScene
    } else if name_is(name, "Red Component") {
        ActionKind::RedComponent
    } else if name_is(name, "Green Component") {
        ActionKind::GreenComponent
    } else if name_is(name, "Blue Component") {
        ActionKind::BlueComponent
    } else {
        ActionKind::Unknown
    }
}

/// A controller value scaled onto brightness or saturation (0..=254 for
/// values 0..=127): twice the value, at most 255.
pub open spec fn level_scale(raw: u8) -> int {
    if 2 * raw > 255 {
        255
    } else {
        2 * raw
    }
}

/// A controller value scaled onto hue (0..=65535 for values 0..=127).
pub open spec fn hue_scale(raw: u8) -> int {
    if raw * 65535 / 127 > 65535 {
        65535
    } else {
        raw * 65535 / 127
    }
}

/// A controller value scaled onto colour temperature (153..=500 mired for
/// values 0..=127).
pub open spec fn ct_scale(raw: u8) -> int {
    153 + raw * 347 / 127
}

/// Scales a controller value onto brightness or saturation.
pub fn scale_level(raw: u8) -> (v: u8)
    ensures
        v == level_scale(raw),
{
    if raw >= 128 {
        255
    } else {
        raw * 2
    }
}

/// Scales a controller value onto hue.
pub fn scale_hue(raw: u8) -> (v: u16)
    ensures
        v == hue_scale(raw),
{
    let r = raw as u32;
    assert(r * 65535 <= 255 * 65535) by (nonlinear_arith)
        requires
            r <= 255,
    ;
    let h = r * 65535 / 127;
    if h > 65535 {
        65535
    } else {
        h as u16
    }
}

/// Scales a controller value onto colour temperature.
pub fn scale_ct(raw: u8) -> (v: u16)
    ensures
        v == ct_scale(raw),
{
    let r = raw as u32;
    assert(r * 347 <= 255 * 347) by (nonlinear_arith)
        requires
            r <= 255,
    ;
    assert(r * 347 / 127 <= 255 * 347 / 127) by (nonlinear_arith)
        requires
            r * 347 <= 255 * 347,
    ;
    (153 + r * 347 / 127) as u16
}

/// Whether inverting the scaled value falls below zero: brightness and
/// saturation invert within 0..=254, colour temperature within 153..=500, so a
/// value that scales beyond those ranges cannot be inverted.
pub open spec fn inversion_underflows(kind: ActionKind, invert: bool, raw: u8) -> bool {
    invert && match kind {
        ActionKind::Brightness | ActionKind::Saturation => level_scale(raw) > 254,
        ActionKind::ColorTemperature => ct_scale(raw) - 153 > 500,
        _ => false,
    }
}

/// Whether the inputs make [`mapping_outcome`] fall below zero; see
/// [`inversion_underflows`].
pub fn inversion_would_underflow(kind: ActionKind, invert: bool, raw: u8) -> (b: bool)
    ensures
        b == inversion_underflows(kind, invert, raw),
{
    if !invert {
        return false;
    }
    match kind {
        ActionKind::Brightness | ActionKind::Saturation => scale_level(raw) > 254,
        ActionKind::ColorTemperature => scale_ct(raw) - 153 > 500,
        _ => false,
    }
}

/// Which colour channel a component action sets.
#[derive(Debug, Clone, Copy, PartialEq, Eq, Structural)]
pub enum ColorComponent {
    Red,
    Green,
    Blue,
}

/// What a MIDI event does to the mapping's target.
#[derive(Debug, Clone)]
pub enum MidiOutcome {
    /// Nothing is sent.
    Ignore,
    /// This command goes to the target.
    Dispatch(StateBody),
    /// The target scene is recalled.
    RecallScene,
    /// One colour channel of the target is set to the controller value
    /// (a floating-point computation that the caller performs).
    MixColor(ColorComponent),
}

/// Whether a controller event counts as a press: a control change at 64 or
/// above, a note with a velocity above 0.
pub open spec fn is_press(is_cc: bool, raw: u8) -> bool {
    if is_cc {
        raw >= 64
    } else {
        raw > 0
    }
}

/// `Some(true)` when the mapping turns the target on while adjusting it.
pub open spec fn auto_on_field(auto_on: bool) -> Option<bool> {
    if auto_on {
        Some(true)
    } else {
        None
    }
}

/// A body that sets only the listed fields.
pub open spec fn body_of(on: Option<bool>, bri: Option<u8>, hue: Option<u16>, sat: Option<u8>, ct: Option<u16>) -> StateBody {
    StateBody { on, bri, hue, sat, ct, scene: None }
}

/// What a mapping does with a controller value `raw`. `is_cc` tells a control
/// change from a note; `currently_on` is whether the cache shows the target on.
///
/// - Brightness: the scaled value (inverted as 254 minus it); a result of 0
///   switches the target off, any other sets the brightness.
/// - Hue, Saturation, Colour temperature: the scaled value, inverted as 65535
///   minus it, 254 minus it, and 500 minus its excess over 153.
/// - Latch: a control change switches on at 64 and above and off below; a note
///   press toggles; a note release does nothing.
/// - Momentary: a press toggles; a release does nothing.
/// - Recall scene: a press recalls; a release does nothing.
/// - Colour components: one colour channel is set.
/// Auto-on adds `on: true` to the adjusting actions.
pub open spec fn mapping_outcome(kind: ActionKind, invert: bool, auto_on: bool, is_cc: bool, raw: u8, currently_on: bool) -> MidiOutcome {
    match kind {
        ActionKind::Brightness => {
            let b = if invert { 254 - level_scale(raw) } else { level_scale(raw) };
            if b == 0 {
                MidiOutcome::Dispatch(body_of(Some(false), None, None, None, None))
            } else {
                MidiOutcome::Dispatch(body_of(auto_on_field(auto_on), Some(b as u8), None, None, None))
            }
        },
        ActionKind::Hue => {
            let h = if invert { 65535 - hue_scale(raw) } else { hue_scale(raw) };
            MidiOutcome::Dispatch(body_of(auto_on_field(auto_on), None, Some(h as u16), None, None))
        },
        ActionKind::Saturation => {
            let s = if invert { 254 - level_scale(raw) } else { level_scale(raw) };
            MidiOutcome::Dispatch(body_of(auto_on_field(auto_on), None, None, Some(s as u8), None))
        },
        ActionKind::ColorTemperature => {
            let c = if invert { 500 - (ct_scale(raw) - 153) } else { ct_scale(raw) };
            MidiOutcome::Dispatch(body_of(auto_on_field(auto_on), None, None, None, Some(c as u16)))
        },
        ActionKind::OnOffLatch => {
            if is_cc {
                MidiOutcome::Dispatch(body_of(Some(raw >= 64), None, None, None, None))
            } else if raw > 0 {
                MidiOutcome::Dispatch(body_of(Some(!currently_on), None, None, None, None))
            } else {
                MidiOutcome::Ignore
            }
        },
        ActionKind::OnOffMomentary => {
            if is_press(is_cc, raw) {
                MidiOutcome::Dispatch(body_of(Some(!currently_on), None, None, None, None))
            } else {
                MidiOutcome::Ignore
            }
        },
        ActionKind::RecallScene => {
            if is_press(is_cc, raw) {
                MidiOutcome::RecallScene
            } else {
                MidiOutcome::Ignore
            }
        },
        ActionKind::RedComponent => MidiOutcome::MixColor(ColorComponent::Red),
        ActionKind::GreenComponent => MidiOutcome::MixColor(ColorComponent::Green),
        ActionKind::BlueComponent => MidiOutcome::MixColor(ColorComponent::Blue),
        ActionKind::Unknown => MidiOutcome::Ignore,
    }
}

fn auto_on_value(auto_on: bool) -> (r: Option<bool>)
    ensures
        r == auto_on_field(auto_on),
{
    if auto_on {
        Some(true)
    } else {
        None
    }
}

/// Computes [`mapping_outcome`].
pub fn evaluate_mapping(kind: ActionKind, invert: bool, auto_on: bool, is_cc: bool, raw: u8, currently_on: bool) -> (r: MidiOutcome)
    requires
        !inversion_underflows(kind, invert, raw),
    ensures
        r == mapping_outcome(kind, invert, auto_on, is_cc, raw, currently_on),
{
    match kind {
        ActionKind::Brightness => {
            let mut b = scale_level(raw);
            if invert {
                b = 254 - b;
            }
            if b == 0 {
                MidiOutcome::Dispatch(StateBody { on: Some(false), bri: None, hue: None, sat: None, ct: None, scene: None })
            } else {
                MidiOutcome::Dispatch(StateBody { on: auto_on_value(auto_on), bri: Some(b), hue: None, sat: None, ct: None, scene: None })
            }
        },
        ActionKind::Hue => {
            let mut h = scale_hue(raw);
            if invert {
                h = 65535 - h;
            }
            MidiOutcome::Dispatch(StateBody { on: auto_on_value(auto_on), bri: None, hue: Some(h), sat: None, ct: None, scene: None })
        },
        ActionKind::Saturation => {
            let mut s = scale_level(raw);
            if invert {
                s = 254 - s;
            }
            MidiOutcome::Dispatch(StateBody { on: auto_on_value(auto_on), bri: None, hue: None, sat: Some(s), ct: None, scene: None })
        },
        ActionKind::ColorTemperature => {
            let mut c = scale_ct(raw);
            if invert {
                c = 500 - (c - 153);
            }
            MidiOutcome::Dispatch(StateBody { on: auto_on_value(auto_on), bri: None, hue: None, sat: None, ct: Some(c), scene: None })
        },
        ActionKind::OnOffLatch => {
            if is_cc {
                MidiOutcome::Dispatch(StateBody { on: Some(raw >= 64), bri: None, hue: None, sat: None, ct: None, scene: None })
            } else if raw > 0 {
                MidiOutcome::Dispatch(StateBody { on: Some(!currently_on), bri: None, hue: None, sat: None, ct: None, scene: None })
            } else {
                MidiOutcome::Ignore
            }
        },
        ActionKind::OnOffMomentary => {
            let active = if is_cc { raw >= 64 } else { raw > 0 };
            if active {
                MidiOutcome::Dispatch(StateBody { on: Some(!currently_on), bri: None, hue: None, sat: None, ct: None, scene: None })
            } else {
                MidiOutcome::Ignore
            }
        },
        ActionKind::RecallScene => {
            let active = if is_cc { raw >= 64 } else { raw > 0 };
            if active {
                MidiOutcome::RecallScene
            } else {
                MidiOutcome::Ignore
            }
        },
        ActionKind::RedComponent => MidiOutcome::MixColor(ColorComponent::Red),
        ActionKind::GreenComponent => MidiOutcome::MixColor(ColorComponent::Green),
        ActionKind::BlueComponent => MidiOutcome::MixColor(ColorComponent::Blue),
        ActionKind::Unknown => MidiOutcome::Ignore,
    }
}

/// The body that sets a colour mixed from one channel: hue, saturation and
/// brightness, and `on: true` with auto-on.
pub fn color_body(hue: u16, sat: u8, bri: u8, auto_on: bool) -> (b: StateBody)
    ensures
        b == body_of(auto_on_field(auto_on), Some(bri), Some(hue), Some(sat), None),
{
    StateBody { on: auto_on_value(auto_on), bri: Some(bri), hue: Some(hue), sat: Some(sat), ct: None, scene: None }
}

/// Inverting a brightness value of the usual range twice gives it back, and
/// an inverted value stays in the range.
pub proof fn lemma_level_inversion(raw: u8)
    requires
        raw <= 127,
    ensures
        0 <= 254 - level_scale(raw) <= 254,
        254 - (254 - level_scale(raw)) == level_scale(raw),
        level_scale(raw) == 2 * raw,
{
}

/// Every value of a MIDI data byte (0..=127) scales into the bridge's ranges:
/// brightness and saturation 0..=254, hue 0..=65535, colour temperature
/// 153..=500, and scaling keeps the order of values.
pub proof fn lemma_scales_in_range(raw: u8, other: u8)
    requires
        raw <= 127,
        other <= 127,
    ensures
        0 <= level_scale(raw) <= 254,
        0 <= hue_scale(raw) <= 65535,
        153 <= ct_scale(raw) <= 500,
        raw <= other ==> level_scale(raw) <= level_scale(other),
        raw <= other ==> hue_scale(raw) <= hue_scale(other),
        raw <= other ==> ct_scale(raw) <= ct_scale(other),
{
    assert(raw * 65535 <= 127 * 65535) by (nonlinear_arith)
        requires
            raw <= 127,
    ;
    assert(raw * 347 <= 127 * 347) by (nonlinear_arith)
        requires
            raw <= 127,
    ;
    assert(raw <= other ==> raw * 65535 / 127 <= other * 65535 / 127) by (nonlinear_arith);
    assert(raw <= other ==> raw * 347 / 127 <= other * 347 / 127) by (nonlinear_arith);
}

/// The ends of the controller range reach the ends of the bridge's ranges:
/// 0 gives the minimum and 127 the maximum of each scale.
pub proof fn lemma_scale_ends()
    ensures
        level_scale(0) == 0,
        level_scale(127) == 254,
        hue_scale(0) == 0,
        hue_scale(127) == 65535,
        ct_scale(0) == 153,
        ct_scale(127) == 500,
{
}

} // verus!

verus! {

/// Inverting a control swaps its ends, as the mapping dialog says
/// (127 gives the minimum, 0 the maximum): inverted brightness at 127
/// switches the target off and at 0 sets 254; inverted hue at 127 is 0 and
/// at 0 is 65535; inverted saturation at 127 is 0 and at 0 is 254; inverted
/// colour temperature at 127 is 153 and at 0 is 500.
pub proof fn lemma_invert_swaps_ends(auto_on: bool, is_cc: bool, on: bool)
    ensures
        mapping_outcome(ActionKind::Brightness, true, auto_on, is_cc, 127, on)
            == MidiOutcome::Dispatch(body_of(Some(false), None, None, None, None)),
        mapping_outcome(ActionKind::Brightness, true, auto_on, is_cc, 0, on)
            == MidiOutcome::Dispatch(body_of(auto_on_field(auto_on), Some(254), None, None, None)),
        mapping_outcome(ActionKind::Hue, true, auto_on, is_cc, 127, on)
            == MidiOutcome::Dispatch(body_of(auto_on_field(auto_on), None, Some(0), None, None)),
        mapping_outcome(ActionKind::Hue, true, auto_on, is_cc, 0, on)
            == MidiOutcome::Dispatch(body_of(auto_on_field(auto_on), None, Some(65535), None, None)),
        mapping_outcome(ActionKind::Saturation, true, auto_on, is_cc, 127, on)
            == MidiOutcome::Dispatch(body_of(auto_on_field(auto_on), None, None, Some(0), None)),
        mapping_outcome(ActionKind::Saturation, true, auto_on, is_cc, 0, on)
            == MidiOutcome::Dispatch(body_of(auto_on_field(auto_on), None, None, Some(254), None)),
        mapping_outcome(ActionKind::ColorTemperature, true, auto_on, is_cc, 127, on)
            == MidiOutcome::Dispatch(body_of(auto_on_field(auto_on), None, None, None, Some(153))),
        mapping_outcome(ActionKind::ColorTemperature, true, auto_on, is_cc, 0, on)
            == MidiOutcome::Dispatch(body_of(auto_on_field(auto_on), None, None, None, Some(500))),
{
}

/// A Latch mapping on a control change follows the control (on at 64 and
/// above, off below), while a note press toggles what the cache shows and a
/// note release does nothing; a Momentary mapping toggles on every press and
/// ignores releases.
pub proof fn lemma_power_toggles(raw: u8, on: bool, invert: bool, auto_on: bool)
    ensures
        mapping_outcome(ActionKind::OnOffLatch, invert, auto_on, true, raw, on)
            == MidiOutcome::Dispatch(body_of(Some(raw >= 64), None, None, None, None)),
        raw > 0 ==> mapping_outcome(ActionKind::OnOffLatch, invert, auto_on, false, raw, on)
            == MidiOutcome::Dispatch(body_of(Some(!on), None, None, None, None)),
        mapping_outcome(ActionKind::OnOffLatch, invert, auto_on, false, 0, on) == MidiOutcome::Ignore,
        forall|cc: bool| is_press(cc, raw) ==> mapping_outcome(ActionKind::OnOffMomentary, invert, auto_on, cc, raw, on)
            == MidiOutcome::Dispatch(body_of(Some(!on), None, None, None, None)),
        forall|cc: bool| !is_press(cc, raw) ==> mapping_outcome(ActionKind::OnOffMomentary, invert, auto_on, cc, raw, on)
            == MidiOutcome::Ignore,
{
}

/// The `on` field that an adjusting action adds: `true` with auto-on,
/// absent otherwise.
pub open spec fn auto_on_of(auto_on: bool) -> Option<bool> {
    if auto_on {
        Some(true)
    } else {
        None
    }
}

/// For every MIDI data byte (0..=127) the adjusting actions send exactly
/// the value that the controller position stands for, and nothing else:
/// brightness and saturation twice the byte, hue the byte scaled to
/// 0..=65535 and colour temperature the byte scaled to 153..=500, each
/// rounded down. Inversion mirrors the value within its range and only
/// happens when the mapping asks for it; brightness 0 switches the target
/// off instead. Auto-on adds `on: true`.
pub proof fn lemma_adjusting_actions(invert: bool, auto_on: bool, is_cc: bool, raw: u8, on: bool)
    requires
        raw <= 127,
    ensures
        ({
            let s: int = if invert { 254 - 2 * raw } else { 2 * raw };
            mapping_outcome(ActionKind::Saturation, invert, auto_on, is_cc, raw, on)
                == MidiOutcome::Dispatch(StateBody { on: auto_on_of(auto_on), bri: None, hue: None, sat: Some(s as u8), ct: None, scene: None })
        }),
        ({
            let v: int = if invert { 254 - 2 * raw } else { 2 * raw };
            mapping_outcome(ActionKind::Brightness, invert, auto_on, is_cc, raw, on) == if v == 0 {
                MidiOutcome::Dispatch(StateBody { on: Some(false), bri: None, hue: None, sat: None, ct: None, scene: None })
            } else {
                MidiOutcome::Dispatch(StateBody { on: auto_on_of(auto_on), bri: Some(v as u8), hue: None, sat: None, ct: None, scene: None })
            }
        }),
        ({
            let o = mapping_outcome(ActionKind::Hue, invert, auto_on, is_cc, raw, on);
            &&& o is Dispatch
            &&& o->Dispatch_0.on == auto_on_of(auto_on)
            &&& o->Dispatch_0.bri is None && o->Dispatch_0.sat is None && o->Dispatch_0.ct is None && o->Dispatch_0.scene is None
            &&& o->Dispatch_0.hue is Some
            &&& {
                let h: int = if invert { 65535 - o->Dispatch_0.hue.unwrap() } else { o->Dispatch_0.hue.unwrap() as int };
                h * 127 <= raw * 65535 < (h + 1) * 127
            }
        }),
        ({
            let o = mapping_outcome(ActionKind::ColorTemperature, invert, auto_on, is_cc, raw, on);
            &&& o is Dispatch
            &&& o->Dispatch_0.on == auto_on_of(auto_on)
            &&& o->Dispatch_0.bri is None && o->Dispatch_0.hue is None && o->Dispatch_0.sat is None && o->Dispatch_0.scene is None
            &&& o->Dispatch_0.ct is Some
            &&& {
                let c: int = o->Dispatch_0.ct.unwrap() as int;
                let d: int = if invert { 500 - c } else { c - 153 };
                d * 127 <= raw * 347 < (d + 1) * 127
            }
        }),
{
    let x: int = raw * 65535;
    let q: int = x / 127;
    assert(q * 127 <= x < (q + 1) * 127) by (nonlinear_arith)
        requires
            x >= 0,
            q == x / 127,
    ;
    assert(x <= 127 * 65535) by (nonlinear_arith)
        requires
            x == raw * 65535,
            raw <= 127,
    ;
    assert(q <= 65535) by (nonlinear_arith)
        requires
            q * 127 <= x,
            x <= 127 * 65535,
    ;
    let y: int = raw * 347;
    let r: int = y / 127;
    assert(r * 127 <= y < (r + 1) * 127) by (nonlinear_arith)
        requires
            y >= 0,
            r == y / 127,
    ;
    assert(y <= 127 * 347) by (nonlinear_arith)
        requires
            y == raw * 347,
            raw <= 127,
    ;
    assert(r <= 347) by (nonlinear_arith)
        requires
            r * 127 <= y,
            y <= 127 * 347,
    ;
}

/// Above the data-byte range (which MIDI does not send) the scaled values
/// stop at the top of what the bridge's fields hold: brightness and
/// saturation 255, hue 65535.
pub proof fn lemma_adjusting_actions_above_range(auto_on: bool, is_cc: bool, raw: u8, on: bool)
    requires
        raw > 127,
    ensures
        mapping_outcome(ActionKind::Saturation, false, auto_on, is_cc, raw, on)
            == MidiOutcome::Dispatch(StateBody { on: auto_on_of(auto_on), bri: None, hue: None, sat: Some(255), ct: None, scene: None }),
        mapping_outcome(ActionKind::Brightness, false, auto_on, is_cc, raw, on)
            == MidiOutcome::Dispatch(StateBody { on: auto_on_of(auto_on), bri: Some(255), hue: None, sat: None, ct: None, scene: None }),
        mapping_outcome(ActionKind::Hue, false, auto_on, is_cc, raw, on)
            == MidiOutcome::Dispatch(StateBody { on: auto_on_of(auto_on), bri: None, hue: Some(65535), sat: None, ct: None, scene: None }),
{
    assert(raw * 65535 / 127 > 65535) by (nonlinear_arith)
        requires
            raw > 127,
    ;
}

/// Inverting a brightness, saturation, hue or colour-temperature mapping
/// mirrors what the plain mapping sends: the two values add up to the top
/// of the range (254 for saturation, 65535 for hue), or to 653 = 153 + 500
/// for colour temperature.
pub proof fn lemma_inversion_mirrors(auto_on: bool, is_cc: bool, raw: u8, on: bool)
    requires
        raw <= 127,
    ensures
        ({
            let p = mapping_outcome(ActionKind::Saturation, false, auto_on, is_cc, raw, on);
            let i = mapping_outcome(ActionKind::Saturation, true, auto_on, is_cc, raw, on);
            p->Dispatch_0.sat.unwrap() + i->Dispatch_0.sat.unwrap() == 254
        }),
        ({
            let p = mapping_outcome(ActionKind::Hue, false, auto_on, is_cc, raw, on);
            let i = mapping_outcome(ActionKind::Hue, true, auto_on, is_cc, raw, on);
            p->Dispatch_0.hue.unwrap() + i->Dispatch_0.hue.unwrap() == 65535
        }),
        ({
            let p = mapping_outcome(ActionKind::ColorTemperature, false, auto_on, is_cc, raw, on);
            let i = mapping_outcome(ActionKind::ColorTemperature, true, auto_on, is_cc, raw, on);
            p->Dispatch_0.ct.unwrap() + i->Dispatch_0.ct.unwrap() == 653
        }),
{
    lemma_adjusting_actions(false, auto_on, is_cc, raw, on);
    lemma_adjusting_actions(true, auto_on, is_cc, raw, on);
}

/// A press is a control change at 64 or above, or a note with a velocity
/// above 0. A power mapping on a control change follows the control; a
/// note press toggles what the cache shows and a note release does nothing.
/// A momentary power mapping toggles on every press, a scene mapping recalls
/// on every press, and both ignore releases. The colour components ask for
/// their own channel, and an unknown action does nothing.
pub proof fn lemma_press_actions(invert: bool, auto_on: bool, is_cc: bool, raw: u8, on: bool)
    ensures
        ({
            let press = if is_cc { raw >= 64 } else { raw > 0 };
            let toggle = MidiOutcome::Dispatch(StateBody { on: Some(!on), bri: None, hue: None, sat: None, ct: None, scene: None });
            &&& press ==> mapping_outcome(ActionKind::OnOffMomentary, invert, auto_on, is_cc, raw, on) == toggle
            &&& !press ==> mapping_outcome(ActionKind::OnOffMomentary, invert, auto_on, is_cc, raw, on) == MidiOutcome::Ignore
            &&& press ==> mapping_outcome(ActionKind::RecallScene, invert, auto_on, is_cc, raw, on) == MidiOutcome::RecallScene
            &&& !press ==> mapping_outcome(ActionKind::RecallScene, invert, auto_on, is_cc, raw, on) == MidiOutcome::Ignore
            &&& is_cc ==> mapping_outcome(ActionKind::OnOffLatch, invert, auto_on, is_cc, raw, on)
                == MidiOutcome::Dispatch(StateBody { on: Some(raw >= 64), bri: None, hue: None, sat: None, ct: None, scene: None })
            &&& !is_cc && raw > 0 ==> mapping_outcome(ActionKind::OnOffLatch, invert, auto_on, is_cc, raw, on) == toggle
            &&& !is_cc && raw == 0 ==> mapping_outcome(ActionKind::OnOffLatch, invert, auto_on, is_cc, raw, on) == MidiOutcome::Ignore
        }),
        mapping_outcome(ActionKind::RedComponent, invert, auto_on, is_cc, raw, on) == MidiOutcome::MixColor(ColorComponent::Red),
        mapping_outcome(ActionKind::GreenComponent, invert, auto_on, is_cc, raw, on) == MidiOutcome::MixColor(ColorComponent::Green),
        mapping_outcome(ActionKind::BlueComponent, invert, auto_on, is_cc, raw, on) == MidiOutcome::MixColor(ColorComponent::Blue),
        mapping_outcome(ActionKind::Unknown, invert, auto_on, is_cc, raw, on) == MidiOutcome::Ignore,
{
}

/// Each action name that the mapping dialog offers denotes its own action.
pub proof fn lemma_action_names()
    ensures
        action_kind("Brightness"@) == ActionKind::Brightness,
        action_kind("Hue"@) == ActionKind::Hue,
        action_kind("Saturation"@) == ActionKind::Saturation,
        action_kind("Color Temperature"@) == ActionKind::ColorTemperature,
        action_kind("On/Off (Latch)"@) == ActionKind::OnOffLatch,
        action_kind("On/Off (Momentary)"@) == ActionKind::OnOffMomentary,
        action_kind("Recall Scene"@) == ActionKind::RecallScene,
        action_kind("Red Component"@) == ActionKind::RedComponent,
        action_kind("Green Component"@) == ActionKind::GreenComponent,
        action_kind("Blue Component"@) == ActionKind::BlueComponent,
{
    reveal_strlit("Brightness");
    assert("Brightness"@.len() == 10);
    reveal_strlit("Hue");
    assert("Hue"@.len() == 3);
    reveal_strlit("Saturation");
    assert("Saturation"@.len() == 10);
    reveal_strlit("Color Temperature");
    assert("Color Temperature"@.len() == 17);
    reveal_strlit("On/Off (Latch)");
    assert("On/Off (Latch)"@.len() == 14);
    reveal_strlit("On/Off (Momentary)");
    assert("On/Off (Momentary)"@.len() == 18);
    reveal_strlit("Recall Scene");
    assert("Recall Scene"@.len() == 12);
    reveal_strlit("Red Component");
    assert("Red Component"@.len() == 13);
    reveal_strlit("Green Component");
    assert("Green Component"@.len() == 15);
    reveal_strlit("Blue Component");
    assert("Blue Component"@.len() == 14);
    assert("Brightness"@[0] != "Saturation"@[0]);
    assert("On/Off (Latch)"@[0] != "Blue Component"@[0]);
}

} // verus!
