use vstd::prelude::*;
use crate::classify::Classification;
use crate::classify::RawEvent;
use crate::classify::is_jog_spin;
use crate::classify::is_jog_touch;
use crate::classify::classify;
use crate::classify::spec_channel;
use crate::classify::spec_classify;

verus! {

/// The two forwarding directions of the bridge; they share every rewrite
/// rule except the jog-spin value rescale, which only the B-to-A direction
/// applies.
#[derive(Clone, Copy, Debug, PartialEq, Eq, Structural)]
pub enum Direction {
    AToB,
    BToA,
}

/// The three-way result of rewriting: emit transformed bytes, emit the
/// original bytes verbatim, or emit nothing.
#[derive(Debug, PartialEq, Eq)]
pub enum OutputDecision {
    Rewritten(Vec<u8>),
    PassThrough,
    Drop,
}

/// Folds the sixteen-channel space down onto the target device's smaller
/// channel space: an even channel is halved first, then everything is
/// halved again, truncating.
pub open spec fn spec_fold_channel(c: int) -> int {
    (if c % 2 == 0 {
        c / 2
    } else {
        c
    }) / 2
}

/// Clamps a computed data value into the 0..=127 protocol range.
pub open spec fn spec_clamp(v: int) -> int {
    if v < 0 {
        0
    } else if v > 127 {
        127
    } else {
        v
    }
}

/// The jog-wheel value rescale around the 64 midpoint with a fourfold zoom
/// factor, before clamping; near the boundaries it leaves the 0..=127
/// range.
pub open spec fn spec_rescale_raw(orig: int) -> int {
    if orig < 64 {
        63 - (63 - orig) * 4
    } else {
        (orig - 64) * 4 + 64
    }
}

/// The rescaled jog-wheel value, clamped into the protocol range.
pub open spec fn spec_rescale(orig: int) -> int {
    spec_clamp(spec_rescale_raw(orig))
}

/// Channel folding stays within the four-channel target space for every
/// even channel and for the odd channels below 8.
pub proof fn lemma_fold_channel_range(c: int)
    requires
        0 <= c < 16,
        c % 2 == 0 || c < 8,
    ensures
        0 <= spec_fold_channel(c) <= 3,
{
}

/// Channel folding is idempotent on the channels below 3, each of which
/// it sends to 0.
pub proof fn lemma_fold_channel_idempotent(c: int)
    requires
        0 <= c <= 2,
    ensures
        spec_fold_channel(spec_fold_channel(c)) == spec_fold_channel(c),
{
}

/// Folds a channel nibble onto the target device's channel space.
pub fn fold_channel(c: u8) -> (r: u8)
    requires
        c < 16,
    ensures
        r == spec_fold_channel(c as int),
        r <= 7,
{
    let half: u8 = if c % 2 == 0 {
        c / 2
    } else {
        c
    };
    half / 2
}

/// Rescales a jog-wheel value around the 64 midpoint by the fourfold zoom
/// factor, clamping the result into the 0..=127 protocol range.
pub fn rescale_value(orig: u8) -> (r: u8)
    ensures
        r == spec_rescale(orig as int),
{
    let o: i32 = orig as i32;
    let raw: i32 = if o < 64 {
        63 - (63 - o) * 4
    } else {
        (o - 64) * 4 + 64
    };
    let clamped: i32 = if raw < 0 {
        0
    } else if raw > 127 {
        127
    } else {
        raw
    };
    clamped as u8
}

/// The bytes emitted for a jog-spin event: status rebased onto the folded
/// channel, one of two parallel controller numbers picked by the original
/// channel's parity, and the value rescaled only in the B-to-A direction.
pub open spec fn spec_jog_spin_out(bytes: Seq<u8>, dir: Direction) -> Seq<u8> {
    let ch = spec_channel(bytes[0]);
    let controller: int = if ch % 2 == 0 {
        0x1F
    } else {
        0x22
    };
    let value: int = if dir == Direction::BToA {
        spec_rescale(bytes[2] as int)
    } else {
        bytes[2] as int
    };
    seq![(0xB0 + spec_fold_channel(ch)) as u8, controller as u8, value as u8]
}

/// The bytes emitted for a jog-touch event: status rebased onto the folded
/// channel, one of two note numbers picked by the original channel's
/// parity, and the velocity unchanged.
pub open spec fn spec_jog_touch_out(bytes: Seq<u8>) -> Seq<u8> {
    let ch = spec_channel(bytes[0]);
    let note: int = if ch % 2 == 0 {
        0x67
    } else {
        0x36
    };
    seq![(0x90 + spec_fold_channel(ch)) as u8, note as u8, bytes[2]]
}

/// The bytes emitted for a note-off event: the status byte reinterpreted
/// as note-on on the same channel, the data bytes unchanged.
pub open spec fn spec_note_off_out(bytes: Seq<u8>) -> Seq<u8> {
    bytes.update(0, (0x90 + spec_channel(bytes[0])) as u8)
}

/// What the bridge emits for an event travelling in a direction: the bytes
/// to send, or nothing when the event is suppressed.
pub open spec fn spec_output(bytes: Seq<u8>, dir: Direction) -> Option<Seq<u8>> {
    match spec_classify(bytes) {
        Classification::JogSpin => Some(spec_jog_spin_out(bytes, dir)),
        Classification::JogTouch => Some(spec_jog_touch_out(bytes)),
        Classification::NoteOff => Some(spec_note_off_out(bytes)),
        Classification::NoteOnOrTransportIgnore => None,
        Classification::Other => Some(bytes),
    }
}

/// Rewrites a classified event for the given direction: jog and note-off
/// events are transformed, ignored events are dropped, and everything else
/// passes through verbatim.
pub fn rewrite(event: &RawEvent, class: Classification, dir: Direction) -> (d: OutputDecision)
    requires
        event.wf(),
        class == spec_classify(event.bytes@),
    ensures
        is_jog_spin(event.bytes@) ==> (d matches OutputDecision::Rewritten(v) && v@
            == spec_jog_spin_out(event.bytes@, dir)),
        is_jog_touch(event.bytes@) ==> (d matches OutputDecision::Rewritten(v) && v@
            == spec_jog_touch_out(event.bytes@)),
        class == Classification::NoteOff ==> (d matches OutputDecision::Rewritten(v) && v@
            == spec_note_off_out(event.bytes@)),
        class == Classification::NoteOnOrTransportIgnore ==> d == OutputDecision::Drop,
        class == Classification::Other ==> d == OutputDecision::PassThrough,
{
    let status = event.bytes[0];
    let ch = status % 16;
    match class {
        Classification::JogSpin => {
            let new_ch = fold_channel(ch);
            let controller: u8 = if ch % 2 == 0 {
                0x1F
            } else {
                0x22
            };
            let value: u8 = match dir {
                Direction::BToA => rescale_value(event.bytes[2]),
                Direction::AToB => event.bytes[2],
            };
            let out: Vec<u8> = vec![0xB0 + new_ch, controller, value];
            proof {
                assert(out@ =~= spec_jog_spin_out(event.bytes@, dir));
            }
            OutputDecision::Rewritten(out)
        },
        Classification::JogTouch => {
            let new_ch = fold_channel(ch);
            let note: u8 = if ch % 2 == 0 {
                0x67
            } else {
                0x36
            };
            let out: Vec<u8> = vec![0x90 + new_ch, note, event.bytes[2]];
            proof {
                assert(out@ =~= spec_jog_touch_out(event.bytes@));
            }
            OutputDecision::Rewritten(out)
        },
        Classification::NoteOff => {
            let mut out: Vec<u8> = Vec::new();
            out.push(0x90 + ch);
            let mut i: usize = 1;
            while i < event.bytes.len()
                invariant
                    1 <= i <= event.bytes@.len() <= 3,
                    out@.len() == i,
                    out@[0] == (0x90 + spec_channel(event.bytes@[0])) as u8,
                    forall|j: int| 1 <= j < i ==> out@[j] == event.bytes@[j],
                decreases event.bytes@.len() - i,
            {
                let b = event.bytes[i];
                out.push(b);
                i += 1;
            }
            proof {
                assert(out@ =~= spec_note_off_out(event.bytes@));
            }
            OutputDecision::Rewritten(out)
        },
        Classification::NoteOnOrTransportIgnore => OutputDecision::Drop,
        Classification::Other => OutputDecision::PassThrough,
    }
}

/// Classifies an event and rewrites it for the given direction, returning
/// the bytes to emit on the outbound connection, or nothing when the event
/// is suppressed.
pub fn process_event(event: &RawEvent, dir: Direction) -> (out: Option<Vec<u8>>)
    requires
        event.wf(),
    ensures
        (match out {
            Some(v) => spec_output(event.bytes@, dir) == Some(v@),
            None => spec_output(event.bytes@, dir) is None,
        }),
{
    let class = classify(event);
    match rewrite(event, class, dir) {
        OutputDecision::Rewritten(v) => Some(v),
        OutputDecision::PassThrough => {
            let mut copy: Vec<u8> = Vec::new();
            let mut i: usize = 0;
            while i < event.bytes.len()
                invariant
                    i <= event.bytes@.len(),
                    copy@ =~= event.bytes@.subrange(0, i as int),
                decreases event.bytes@.len() - i,
            {
                let b = event.bytes[i];
                copy.push(b);
                i += 1;
            }
            proof {
                assert(copy@ =~= event.bytes@);
            }
            Some(copy)
        },
        OutputDecision::Drop => None,
    }
}

/// An ignored event is always dropped: a note-on that is not a jog touch,
/// or the transport status byte without a jog-spin payload, never emits
/// any output bytes.
pub proof fn lemma_ignore_drops(bytes: Seq<u8>, dir: Direction)
    requires
        1 <= bytes.len() <= 3,
        !is_jog_spin(bytes),
        !is_jog_touch(bytes),
        crate::classify::spec_message_kind(bytes[0]) == 0x9 || bytes[0] == 0xBB,
    ensures
        spec_output(bytes, dir) is None,
{
}

/// An event in the catch-all category passes through byte-for-byte: the
/// output equals the input.
pub proof fn lemma_other_passes_through(bytes: Seq<u8>, dir: Direction)
    requires
        1 <= bytes.len() <= 3,
        spec_classify(bytes) == Classification::Other,
    ensures
        spec_output(bytes, dir) == Some(bytes),
{
}

} // verus!
