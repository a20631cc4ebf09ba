use vstd::prelude::*;

verus! {

/// A raw MIDI event as the hardware delivers it: a device-assigned
/// monotonic timestamp and the message bytes (a status byte followed by up
/// to two data bytes).
pub struct RawEvent {
    pub timestamp: u64,
    pub bytes: Vec<u8>,
}

impl RawEvent {
    /// A channel-voice event carries one to three bytes.
    pub open spec fn wf(&self) -> bool {
        1 <= self.bytes@.len() <= 3
    }
}

/// The semantic category of a raw event, decided from the status byte's
/// nibbles and the payload.
#[derive(Clone, Copy, Debug, PartialEq, Eq, Structural)]
pub enum Classification {
    /// A control change for controller 30: a jog-wheel rotation.
    JogSpin,
    /// A note-on for note 20: the jog-wheel touch sensor.
    JogTouch,
    /// Any note-off message.
    NoteOff,
    /// Other note-on messages and the transport status byte, which are
    /// suppressed downstream to avoid feedback chatter.
    NoteOnOrTransportIgnore,
    /// Everything else, passed through verbatim.
    Other,
}

/// The upper nibble of a status byte: the message kind.
pub open spec fn spec_message_kind(status: u8) -> int {
    (status as int) / 16
}

/// The lower nibble of a status byte: the channel.
pub open spec fn spec_channel(status: u8) -> int {
    (status as int) % 16
}

/// A control change (kind 0xB) with a three-byte payload addressing
/// controller 30.
pub open spec fn is_jog_spin(bytes: Seq<u8>) -> bool {
    &&& bytes.len() == 3
    &&& spec_message_kind(bytes[0]) == 0xB
    &&& bytes[1] == 30
}

/// A note-on (kind 0x9) with a three-byte payload for note 20.
pub open spec fn is_jog_touch(bytes: Seq<u8>) -> bool {
    &&& bytes.len() == 3
    &&& spec_message_kind(bytes[0]) == 0x9
    &&& bytes[1] == 20
}

/// Any note-off message (kind 0x8).
pub open spec fn is_note_off(bytes: Seq<u8>) -> bool {
    spec_message_kind(bytes[0]) == 0x8
}

/// A note-on that is not a jog touch, or the transport status byte 0xBB
/// when it does not carry a jog-spin payload.
pub open spec fn is_transport_ignore(bytes: Seq<u8>) -> bool {
    &&& !is_jog_spin(bytes)
    &&& !is_jog_touch(bytes)
    &&& (spec_message_kind(bytes[0]) == 0x9 || bytes[0] == 0xBB)
}

/// An event that no other category claims; it passes through verbatim.
pub open spec fn is_other(bytes: Seq<u8>) -> bool {
    &&& !is_jog_spin(bytes)
    &&& !is_jog_touch(bytes)
    &&& !is_note_off(bytes)
    &&& !is_transport_ignore(bytes)
}

/// The classification of an event's bytes: the first category in the
/// decision chain whose guard holds.
pub open spec fn spec_classify(bytes: Seq<u8>) -> Classification {
    if is_jog_spin(bytes) {
        Classification::JogSpin
    } else if is_jog_touch(bytes) {
        Classification::JogTouch
    } else if is_note_off(bytes) {
        Classification::NoteOff
    } else if spec_message_kind(bytes[0]) == 0x9 || bytes[0] == 0xBB {
        Classification::NoteOnOrTransportIgnore
    } else {
        Classification::Other
    }
}

/// The defining predicate of each category.
pub open spec fn tag_matches(bytes: Seq<u8>, c: Classification) -> bool {
    match c {
        Classification::JogSpin => is_jog_spin(bytes),
        Classification::JogTouch => is_jog_touch(bytes),
        Classification::NoteOff => is_note_off(bytes),
        Classification::NoteOnOrTransportIgnore => is_transport_ignore(bytes),
        Classification::Other => is_other(bytes),
    }
}

/// Classification is total and unambiguous: every one-to-three-byte event
/// satisfies the defining predicate of exactly one category, and
/// `spec_classify` picks that category.
pub proof fn lemma_classify_total(bytes: Seq<u8>)
    requires
        1 <= bytes.len() <= 3,
    ensures
        tag_matches(bytes, spec_classify(bytes)),
        forall|c: Classification| tag_matches(bytes, c) ==> c == spec_classify(bytes),
{
    assert forall|c: Classification| tag_matches(bytes, c) implies c == spec_classify(
        bytes,
    ) by {
        match c {
            Classification::JogSpin => {},
            Classification::JogTouch => {},
            Classification::NoteOff => {},
            Classification::NoteOnOrTransportIgnore => {},
            Classification::Other => {},
        }
    }
}

/// Determines the semantic category of a raw event from its status byte's
/// nibbles and its payload.
pub fn classify(event: &RawEvent) -> (c: Classification)
    requires
        event.wf(),
    ensures
        c == spec_classify(event.bytes@),
{
    let status = event.bytes[0];
    let kind = status / 16;
    if kind == 0xB && event.bytes.len() == 3 && event.bytes[1] == 30 {
        Classification::JogSpin
    } else if kind == 0x9 && event.bytes.len() == 3 && event.bytes[1] == 20 {
        Classification::JogTouch
    } else if kind == 0x8 {
        Classification::NoteOff
    } else if kind == 0x9 || status == 0xBB {
        Classification::NoteOnOrTransportIgnore
    } else {
        Classification::Other
    }
}

} // verus!
