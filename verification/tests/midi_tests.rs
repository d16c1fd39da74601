use huemidity::midi::{parse_midi_bytes, event_from_bytes, find_port, port_not_found_message, connection_error_message};

#[test]
fn note_on_keeps_velocity() {
    assert_eq!(parse_midi_bytes(&[0x90, 60, 100]), Some(("Note 60".to_string(), 100)));
}

#[test]
fn note_on_other_channel() {
    assert_eq!(parse_midi_bytes(&[0x9F, 7, 1]), Some(("Note 7".to_string(), 1)));
}

#[test]
fn note_on_velocity_zero_equals_note_off() {
    assert_eq!(parse_midi_bytes(&[0x93, 64, 0]), parse_midi_bytes(&[0x83, 64, 90]));
    assert_eq!(parse_midi_bytes(&[0x83, 64, 90]), Some(("Note 64".to_string(), 0)));
}

#[test]
fn note_off_reports_zero() {
    assert_eq!(parse_midi_bytes(&[0x80, 127, 64]), Some(("Note 127".to_string(), 0)));
}

#[test]
fn control_change_keeps_value() {
    assert_eq!(parse_midi_bytes(&[0xB0, 14, 77]), Some(("CC 14".to_string(), 77)));
    assert_eq!(parse_midi_bytes(&[0xB5, 0, 0]), Some(("CC 0".to_string(), 0)));
    assert_eq!(parse_midi_bytes(&[0xB1, 255, 9]), Some(("CC 255".to_string(), 9)));
}

#[test]
fn short_messages_carry_nothing() {
    assert_eq!(parse_midi_bytes(&[]), None);
    assert_eq!(parse_midi_bytes(&[0x90]), None);
    assert_eq!(parse_midi_bytes(&[0x90, 60]), None);
}

#[test]
fn other_message_types_carry_nothing() {
    assert_eq!(parse_midi_bytes(&[0xA0, 60, 10]), None);
    assert_eq!(parse_midi_bytes(&[0xC0, 5, 0]), None);
    assert_eq!(parse_midi_bytes(&[0xE0, 0, 64]), None);
    assert_eq!(parse_midi_bytes(&[0xF8, 0, 0]), None);
}

#[test]
fn extra_bytes_are_ignored() {
    assert_eq!(parse_midi_bytes(&[0xB0, 7, 3, 0xB0, 8, 4]), Some(("CC 7".to_string(), 3)));
}

#[test]
fn event_carries_device_name() {
    let e = event_from_bytes(&"Launch Control".to_string(), &[0xB2, 21, 42]).unwrap();
    assert_eq!(e.device_name, "Launch Control");
    assert_eq!(e.event_key, "CC 21");
    assert_eq!(e.value, 42);
    assert!(event_from_bytes(&"X".to_string(), &[0xF0, 1, 2]).is_none());
}

#[test]
fn find_port_takes_first_readable_match() {
    let names = vec![None, Some("A".to_string()), Some("B".to_string()), Some("B".to_string())];
    assert_eq!(find_port(&names, &"B".to_string()), Some(2));
    assert_eq!(find_port(&names, &"A".to_string()), Some(1));
    assert_eq!(find_port(&names, &"C".to_string()), None);
}

#[test]
fn port_messages() {
    assert_eq!(port_not_found_message("Keys"), "MIDI port not found: Keys");
    assert_eq!(connection_error_message("busy"), "MIDI connection error: busy");
}

#[test]
fn keys_of_distinct_numbers_differ() {
    let mut keys = Vec::new();
    for n in 0u16..=255 {
        let (k, _) = parse_midi_bytes(&[0xB0, n as u8, 1]).unwrap();
        keys.push(k);
        let (k, _) = parse_midi_bytes(&[0x90, n as u8, 1]).unwrap();
        keys.push(k);
    }
    let mut sorted = keys.clone();
    sorted.sort();
    sorted.dedup();
    assert_eq!(sorted.len(), keys.len());
    assert!(keys.contains(&"Note 100".to_string()));
    assert!(keys.contains(&"CC 9".to_string()));
}
