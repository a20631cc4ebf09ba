use midi_bridge::classify::{classify, Classification, RawEvent};

fn event(bytes: Vec<u8>) -> RawEvent {
    RawEvent { timestamp: 0, bytes }
}

#[test]
fn control_change_for_controller_30_is_jog_spin() {
    let e = event(vec![0xB3, 30, 100]);
    assert_eq!(classify(&e), Classification::JogSpin);
}

#[test]
fn note_on_for_note_20_is_jog_touch() {
    let e = event(vec![0x93, 20, 127]);
    assert_eq!(classify(&e), Classification::JogTouch);
}

#[test]
fn any_note_off_is_note_off() {
    let e = event(vec![0x85, 40, 0]);
    assert_eq!(classify(&e), Classification::NoteOff);
}

#[test]
fn short_note_off_is_note_off() {
    let e = event(vec![0x8F]);
    assert_eq!(classify(&e), Classification::NoteOff);
}

#[test]
fn note_on_for_another_note_is_ignored() {
    let e = event(vec![0x99, 10, 5]);
    assert_eq!(classify(&e), Classification::NoteOnOrTransportIgnore);
}

#[test]
fn transport_status_byte_is_ignored() {
    let e = event(vec![0xBB, 7, 0]);
    assert_eq!(classify(&e), Classification::NoteOnOrTransportIgnore);
}

#[test]
fn transport_status_byte_with_controller_30_is_jog_spin() {
    let e = event(vec![0xBB, 30, 64]);
    assert_eq!(classify(&e), Classification::JogSpin);
}

#[test]
fn program_change_is_other() {
    let e = event(vec![0xC0, 5]);
    assert_eq!(classify(&e), Classification::Other);
}

#[test]
fn control_change_for_another_controller_is_other() {
    let e = event(vec![0xB2, 31, 100]);
    assert_eq!(classify(&e), Classification::Other);
}

#[test]
fn two_byte_control_change_is_other() {
    let e = event(vec![0xB3, 30]);
    assert_eq!(classify(&e), Classification::Other);
}
