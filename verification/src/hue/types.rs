//! The Hue bridge's resources as the library holds them, and light capabilities.

use vstd::prelude::*;
use crate::text::{has_substring, lowercase, to_lowercase, contains_str, is_ascii_text, ascii_lowercase};

verus! {

/// What a light reports about its current state. Colour coordinates are
/// held as the IEEE-754 bit patterns of the reported numbers.
#[derive(Debug, Clone, Default)]
pub struct LightState {
    pub on: Option<bool>,
    pub bri: Option<u8>,
    pub hue: Option<u16>,
    pub sat: Option<u8>,
    pub ct: Option<u16>,
    pub xy: Option<Vec<u32>>,
    pub reachable: Option<bool>,
}

/// One light of the bridge.
#[derive(Debug, Clone)]
pub struct Light {
    pub name: String,
    /// The bridge's product type, such as `Extended color light`.
    pub light_type: String,
    pub state: LightState,
    pub modelid: String,
    pub uniqueid: String,
}

/// The last action applied to a group. Colour coordinates are held as
/// IEEE-754 bit patterns.
#[derive(Debug, Clone, Default)]
pub struct GroupAction {
    pub on: Option<bool>,
    pub bri: Option<u8>,
    pub hue: Option<u16>,
    pub sat: Option<u8>,
    pub ct: Option<u16>,
    pub xy: Option<Vec<u32>>,
}

/// A group (room, zone) of lights.
#[derive(Debug, Clone)]
pub struct Group {
    pub name: String,
    pub group_type: String,
    pub lights: Vec<String>,
    pub action: GroupAction,
}

/// A stored scene.
#[derive(Debug, Clone)]
pub struct Scene {
    pub name: String,
    pub lights: Option<Vec<String>>,
    pub group: Option<String>,
}

/// What a light can be told to change.
#[derive(Debug, Clone, Copy, PartialEq, Eq, Structural, Hash)]
pub enum Capability {
    Dim,
    Ct,
    Color,
}

/// A set of capabilities.
#[derive(Debug, Clone, Copy, PartialEq, Eq, Structural)]
pub struct CapSet {
    pub dim: bool,
    pub ct: bool,
    pub color: bool,
}

/// The characters `color`.
pub open spec fn color_word() -> Seq<char> {
    seq!['c', 'o', 'l', 'o', 'r']
}

/// The characters `temp`.
pub open spec fn temp_word() -> Seq<char> {
    seq!['t', 'e', 'm', 'p']
}

/// The capabilities that a light state shows by the fields it reports.
pub open spec fn reported_capabilities(s: LightState) -> Set<Capability> {
    Set::new(
        |c: Capability|
            match c {
                Capability::Dim => s.bri is Some,
                Capability::Ct => s.ct is Some,
                Capability::Color => s.hue is Some || s.sat is Some || s.xy is Some,
            },
    )
}

/// The capabilities of a light with state `s` and lower-cased product type
/// `lowered`: those its state reports; if it reports none, those its product
/// type names (colour lights can do everything, colour-temperature lights can
/// dim and change temperature), and dimming otherwise.
pub open spec fn light_capabilities(s: LightState, lowered: Seq<char>) -> Set<Capability> {
    if reported_capabilities(s) != Set::<Capability>::empty() {
        reported_capabilities(s)
    } else if has_substring(lowered, color_word()) {
        set![Capability::Dim, Capability::Ct, Capability::Color]
    } else if has_substring(lowered, temp_word()) {
        set![Capability::Dim, Capability::Ct]
    } else {
        set![Capability::Dim]
    }
}

impl View for CapSet {
    type V = Set<Capability>;

    open spec fn view(&self) -> Set<Capability> {
        Set::new(
            |c: Capability|
                match c {
                    Capability::Dim => self.dim,
                    Capability::Ct => self.ct,
                    Capability::Color => self.color,
                },
        )
    }
}

impl CapSet {
    /// No capability.
    pub fn empty() -> (s: CapSet)
        ensures
            s@ == Set::<Capability>::empty(),
    {
        let s = CapSet { dim: false, ct: false, color: false };
        assert(s@ =~= Set::<Capability>::empty());
        s
    }

    /// Every capability.
    pub fn full() -> (s: CapSet)
        ensures
            s@ == set![Capability::Dim, Capability::Ct, Capability::Color],
    {
        let s = CapSet { dim: true, ct: true, color: true };
        assert(s@ =~= set![Capability::Dim, Capability::Ct, Capability::Color]);
        s
    }

    /// Adds one capability.
    pub fn insert(&mut self, c: Capability)
        ensures
            final(self)@ == old(self)@.insert(c),
    {
        match c {
            Capability::Dim => self.dim = true,
            Capability::Ct => self.ct = true,
            Capability::Color => self.color = true,
        }
        assert(final(self)@ =~= old(self)@.insert(c));
    }

    /// Adds every capability of `other`.
    pub fn extend(&mut self, other: &CapSet)
        ensures
            final(self)@ == old(self)@.union(other@),
    {
        self.dim = self.dim || other.dim;
        self.ct = self.ct || other.ct;
        self.color = self.color || other.color;
        assert(final(self)@ =~= old(self)@.union(other@));
    }

    /// Whether `c` belongs to the set.
    pub fn contains(&self, c: Capability) -> (b: bool)
        ensures
            b == self@.contains(c),
    {
        match c {
            Capability::Dim => self.dim,
            Capability::Ct => self.ct,
            Capability::Color => self.color,
        }
    }

    /// Whether the set is empty.
    pub fn is_empty(&self) -> (b: bool)
        ensures
            b == (self@ == Set::<Capability>::empty()),
    {
        let b = !self.dim && !self.ct && !self.color;
        if !b {
            if self.dim {
                assert(self@.contains(Capability::Dim));
            } else if self.ct {
                assert(self@.contains(Capability::Ct));
            } else {
                assert(self@.contains(Capability::Color));
            }
        } else {
            assert(self@ =~= Set::<Capability>::empty());
        }
        b
    }
}

/// The capabilities of a light whose state is `state` and whose product type,
/// lower-cased, is `lowered_type`.
pub fn capabilities_from(state: &LightState, lowered_type: &str) -> (caps: CapSet)
    ensures
        caps@ == light_capabilities(*state, lowered_type@),
{
    let mut caps = CapSet::empty();
    if state.bri.is_some() {
        caps.insert(Capability::Dim);
    }
    if state.ct.is_some() {
        caps.insert(Capability::Ct);
    }
    if state.hue.is_some() || state.sat.is_some() || state.xy.is_some() {
        caps.insert(Capability::Color);
    }
    assert(caps@ =~= reported_capabilities(*state));
    if caps.is_empty() {
        proof {
            reveal_strlit("color");
            reveal_strlit("temp");
            assert("color"@ =~= color_word());
            assert("temp"@ =~= temp_word());
        }
        if contains_str(lowered_type, "color") {
            caps.insert(Capability::Dim);
            caps.insert(Capability::Ct);
            caps.insert(Capability::Color);
            assert(caps@ =~= set![Capability::Dim, Capability::Ct, Capability::Color]);
        } else if contains_str(lowered_type, "temp") {
            caps.insert(Capability::Dim);
            caps.insert(Capability::Ct);
            assert(caps@ =~= set![Capability::Dim, Capability::Ct]);
        } else {
            caps.insert(Capability::Dim);
            assert(caps@ =~= set![Capability::Dim]);
        }
    }
    caps
}

impl Light {
    /// What this light can be told to change; see [`light_capabilities`].
    pub fn capabilities(&self) -> (caps: CapSet)
        ensures
            caps@ == light_capabilities(self.state, lowercase(self.light_type@)),
            is_ascii_text(self.light_type@)
                ==> caps@ == light_capabilities(self.state, ascii_lowercase(self.light_type@)),
    {
        let lowered = to_lowercase(self.light_type.as_str());
        capabilities_from(&self.state, lowered.as_str())
    }
}

} // verus!

verus! {

/// Every light can be told something: its capabilities are never empty; the
/// capabilities that its state reports take precedence over its product type.
pub proof fn lemma_light_has_capability(s: LightState, lowered: Seq<char>)
    ensures
        light_capabilities(s, lowered) != Set::<Capability>::empty(),
        reported_capabilities(s) != Set::<Capability>::empty() ==> light_capabilities(s, lowered) == reported_capabilities(s),
        reported_capabilities(s) == Set::<Capability>::empty() ==> light_capabilities(s, lowered).contains(Capability::Dim),
{
    if reported_capabilities(s) == Set::<Capability>::empty() {
        assert(light_capabilities(s, lowered).contains(Capability::Dim));
    }
}

/// A light's capabilities follow the fields that its state reports, each
/// on its own: dimming exactly when it reports a brightness, colour
/// temperature exactly when it reports one, colour exactly when it reports
/// a hue, a saturation or a colour point. Only a light that reports none of
/// these falls back on its product type: a type naming `color` can do
/// everything, one naming `temp` can dim and change temperature, any other
/// can dim.
pub proof fn lemma_capabilities_follow_state(s: LightState, lowered: Seq<char>)
    ensures
        ({
            let caps = light_capabilities(s, lowered);
            let reports = s.bri is Some || s.ct is Some || s.hue is Some || s.sat is Some || s.xy is Some;
            &&& reports ==> {
                &&& caps.contains(Capability::Dim) <==> s.bri is Some
                &&& caps.contains(Capability::Ct) <==> s.ct is Some
                &&& caps.contains(Capability::Color) <==> (s.hue is Some || s.sat is Some || s.xy is Some)
            }
            &&& !reports ==> {
                &&& caps.contains(Capability::Dim)
                &&& caps.contains(Capability::Color) <==> has_substring(lowered, color_word())
                &&& caps.contains(Capability::Ct)
                    <==> (has_substring(lowered, color_word()) || has_substring(lowered, temp_word()))
            }
        }),
{
    let r = reported_capabilities(s);
    if s.bri is Some {
        assert(r.contains(Capability::Dim));
    } else if s.ct is Some {
        assert(r.contains(Capability::Ct));
    } else if s.hue is Some || s.sat is Some || s.xy is Some {
        assert(r.contains(Capability::Color));
    } else {
        assert(r =~= Set::<Capability>::empty());
    }
}

} // verus!
