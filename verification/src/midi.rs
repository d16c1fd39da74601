//! Decoding of raw MIDI messages into named controller events.

use vstd::prelude::*;
use crate::text::{decimal, push_decimal, lemma_decimal_injective};

verus! {

/// One decoded controller event of a named MIDI input device.
#[derive(Debug, Clone)]
pub struct MidiEvent {
    pub device_name: String,
    /// `Note n` or `CC n`.
    pub event_key: String,
    /// 0..=127 for well-formed input.
    pub value: u8,
}

impl MidiEvent {
    /// The same event, as an independent value.
    pub fn duplicate(&self) -> (e: MidiEvent)
        ensures
            e == *self,
    {
        MidiEvent { device_name: self.device_name.clone(), event_key: self.event_key.clone(), value: self.value }
    }
}

/// The characters `Note `.
pub open spec fn note_prefix() -> Seq<char> {
    seq!['N', 'o', 't', 'e', ' ']
}

/// The characters `CC `.
pub open spec fn cc_prefix() -> Seq<char> {
    seq!['C', 'C', ' ']
}

/// What a raw MIDI message means: the event key and the value, or nothing.
/// Note On keeps its velocity, Note Off reports 0, Control Change keeps its value;
/// other message types and messages of fewer than three bytes carry no event.
pub open spec fn midi_meaning(bytes: Seq<u8>) -> Option<(Seq<char>, u8)> {
    if bytes.len() < 3 {
        None
    } else {
        let kind = bytes[0] & 0xF0u8;
        if kind == 0x90u8 {
            Some((note_prefix() + decimal(bytes[1] as nat), bytes[2]))
        } else if kind == 0x80u8 {
            Some((note_prefix() + decimal(bytes[1] as nat), 0u8))
        } else if kind == 0xB0u8 {
            Some((cc_prefix() + decimal(bytes[1] as nat), bytes[2]))
        } else {
            None
        }
    }
}

fn key_with_number(note: bool, n: u8) -> (s: String)
    ensures
        s@ == (if note { note_prefix() } else { cc_prefix() }) + decimal(n as nat),
{
    let mut s = if note {
        proof { reveal_strlit("Note "); }
        String::from_str("Note ")
    } else {
        proof { reveal_strlit("CC "); }
        String::from_str("CC ")
    };
    push_decimal(&mut s, n);
    s
}

/// Decodes a raw MIDI message into its event key and value.
pub fn parse_midi_bytes(bytes: &[u8]) -> (r: Option<(String, u8)>)
    ensures
        match midi_meaning(bytes@) {
            None => r is None,
            Some((key, value)) => r matches Some((k, v)) && k@ == key && v == value,
        },
{
    if bytes.len() < 3 {
        return None;
    }
    let status = bytes[0];
    let control_note = bytes[1];
    let value_velocity = bytes[2];
    let message_type = status & 0xF0;
    if message_type == 0x90 {
        Some((key_with_number(true, control_note), value_velocity))
    } else if message_type == 0x80 {
        Some((key_with_number(true, control_note), 0))
    } else if message_type == 0xB0 {
        Some((key_with_number(false, control_note), value_velocity))
    } else {
        None
    }
}

/// The first port whose name could be read and equals `wanted`.
pub fn find_port(names: &Vec<Option<String>>, wanted: &String) -> (r: Option<usize>)
    ensures
        r is None ==> forall|i: int| 0 <= i < names@.len() ==> !(#[trigger] names@[i] matches Some(n) && n@ == wanted@),
        r matches Some(i) ==> i < names@.len() && (names@[i as int] matches Some(n) && n@ == wanted@)
            && forall|j: int| 0 <= j < i ==> !(#[trigger] names@[j] matches Some(n) && n@ == wanted@),
{
    let mut i: usize = 0;
    while i < names.len()
        invariant
            i <= names@.len(),
            forall|j: int| 0 <= j < i ==> !(#[trigger] names@[j] matches Some(n) && n@ == wanted@),
        decreases names@.len() - i,
    {
        match &names[i] {
            Some(n) => {
                if *n == *wanted {
                    return Some(i);
                }
            },
            None => {},
        }
        i = i + 1;
    }
    None
}

/// The message of a port that was not found: `MIDI port not found: {name}`.
pub fn port_not_found_message(name: &str) -> (m: String)
    ensures
        m@ == "MIDI port not found: "@ + name@,
{
    let mut m = String::from_str("MIDI port not found: ");
    m.append(name);
    m
}

/// The message of a failed connection: `MIDI connection error: {detail}`.
pub fn connection_error_message(detail: &str) -> (m: String)
    ensures
        m@ == "MIDI connection error: "@ + detail@,
{
    let mut m = String::from_str("MIDI connection error: ");
    m.append(detail);
    m
}

/// The event that a raw message from device `device_name` carries, if any;
/// see [`midi_meaning`].
pub fn event_from_bytes(device_name: &String, bytes: &[u8]) -> (r: Option<MidiEvent>)
    ensures
        match midi_meaning(bytes@) {
            None => r is None,
            Some((key, value)) => r matches Some(e) && e.device_name == *device_name && e.event_key@ == key && e.value == value,
        },
{
    match parse_midi_bytes(bytes) {
        Some((event_key, value)) => Some(MidiEvent { device_name: device_name.clone(), event_key, value }),
        None => None,
    }
}

} // verus!

verus! {

/// A Note On with velocity 0 means what a Note Off of the same note means,
/// whatever the Note Off's velocity and the channel.
pub proof fn lemma_note_on_zero_is_note_off(channel: u8, note: u8, velocity: u8)
    requires
        channel < 16,
    ensures
        midi_meaning(seq![0x90u8 | channel, note, 0u8]) == midi_meaning(seq![0x80u8 | channel, note, velocity]),
        midi_meaning(seq![0x80u8 | channel, note, velocity]) is Some,
{
    assert((0x90u8 | channel) & 0xF0u8 == 0x90u8) by (bit_vector)
        requires
            channel < 16,
    ;
    assert((0x80u8 | channel) & 0xF0u8 == 0x80u8) by (bit_vector)
        requires
            channel < 16,
    ;
}

/// The channel (the low half of the status byte) does not change what a
/// message means, and bytes after the third are ignored.
pub proof fn lemma_meaning_ignores_channel_and_tail(bytes: Seq<u8>, status: u8)
    requires
        bytes.len() >= 3,
        status & 0xF0u8 == bytes[0] & 0xF0u8,
    ensures
        midi_meaning(bytes.update(0, status)) == midi_meaning(bytes),
        midi_meaning(bytes.take(3)) == midi_meaning(bytes),
{
}

/// An event key names its kind and its number: keys of notes and of
/// controls never coincide, and two notes (or two controls) have the same key
/// only when they have the same number.
pub proof fn lemma_event_keys_distinct(a: u8, b: u8)
    ensures
        note_prefix() + decimal(a as nat) != cc_prefix() + decimal(b as nat),
        note_prefix() + decimal(a as nat) == note_prefix() + decimal(b as nat) ==> a == b,
        cc_prefix() + decimal(a as nat) == cc_prefix() + decimal(b as nat) ==> a == b,
{
    assert((note_prefix() + decimal(a as nat))[0] == 'N');
    assert((cc_prefix() + decimal(b as nat))[0] == 'C');
    if note_prefix() + decimal(a as nat) == note_prefix() + decimal(b as nat) {
        assert(decimal(a as nat) =~= (note_prefix() + decimal(a as nat)).subrange(5, (note_prefix() + decimal(a as nat)).len() as int));
        assert(decimal(b as nat) =~= (note_prefix() + decimal(b as nat)).subrange(5, (note_prefix() + decimal(b as nat)).len() as int));
        lemma_decimal_injective(a as nat, b as nat);
    }
    if cc_prefix() + decimal(a as nat) == cc_prefix() + decimal(b as nat) {
        assert(decimal(a as nat) =~= (cc_prefix() + decimal(a as nat)).subrange(3, (cc_prefix() + decimal(a as nat)).len() as int));
        assert(decimal(b as nat) =~= (cc_prefix() + decimal(b as nat)).subrange(3, (cc_prefix() + decimal(b as nat)).len() as int));
        lemma_decimal_injective(a as nat, b as nat);
    }
}

/// Only Note On, Note Off and Control Change messages of at least three bytes
/// carry an event, and a Note Off always reports the value 0.
pub proof fn lemma_meaning_kinds(bytes: Seq<u8>)
    ensures
        midi_meaning(bytes) is Some <==> bytes.len() >= 3 && (bytes[0] & 0xF0u8 == 0x90u8
            || bytes[0] & 0xF0u8 == 0x80u8 || bytes[0] & 0xF0u8 == 0xB0u8),
        bytes.len() >= 3 && bytes[0] & 0xF0u8 == 0x80u8 ==> midi_meaning(bytes).unwrap().1 == 0,
{
}

} // verus!
