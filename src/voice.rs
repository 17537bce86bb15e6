//! The per-voice decisions of the key-remapping effect: which gain a voice
//! takes, whether it holds and runs a pitch shifter, which voices are live,
//! and when the reported latency changes.

use vstd::prelude::*;
use crate::notes::{OFF_KEY, PitchShiftNode};

verus! {

/// Which of the three input gains a voice takes.
#[derive(Debug, Clone, Copy, PartialEq, Eq, Structural)]
pub enum VoiceGain {
    /// The voice's note is on the scale.
    InKey,
    /// The voice's note has no scale note near it, or pitch shifting is off.
    OffKey,
    /// The voice's note is shifted onto the scale.
    Tuning,
}

/// The gain a voice with table entry `note_pitch` takes.
pub fn voice_gain(note_pitch: i8, pitch_shift: bool) -> (r: VoiceGain)
    ensures
        r == if note_pitch == 0 {
            VoiceGain::InKey
        } else if note_pitch == OFF_KEY || !pitch_shift {
            VoiceGain::OffKey
        } else {
            VoiceGain::Tuning
        },
{
    if note_pitch == 0 {
        VoiceGain::InKey
    } else if note_pitch == OFF_KEY {
        VoiceGain::OffKey
    } else if !pitch_shift {
        VoiceGain::OffKey
    } else {
        VoiceGain::Tuning
    }
}

/// Whether a voice sends its input through its pitch shifter rather than
/// its delay line: pitch shifting is on, the voice's note needs a shift, and
/// either the shifters run one per pitch class or the voice's gate is open.
pub fn runs_pitch_shifter(pitch_shift: bool, note_pitch: i8, node: PitchShiftNode, open: bool) -> (r: bool)
    ensures
        r == (pitch_shift && note_pitch != 0 && note_pitch != OFF_KEY && (node == PitchShiftNode::Node12
            || open)),
{
    pitch_shift && !(note_pitch == 0 || note_pitch == OFF_KEY) && (node == PitchShiftNode::Node12 || open)
}

/// Whether voice `note` holds a pitch shifter: every voice does with one
/// shifter per note; with one per pitch class, only the twelve voices from
/// the lowest live note `low_note` up.
pub fn has_tuning(node: PitchShiftNode, note: u8, low_note: u8) -> (r: bool)
    ensures
        r == (node == PitchShiftNode::Node96 || note < low_note + 12),
{
    match node {
        PitchShiftNode::Node96 => true,
        PitchShiftNode::Node12 => (note as u16) < (low_note as u16) + 12,
    }
}

/// Whether voice `note` lies between the lowest and highest live notes.
pub fn in_voice_range(note: u8, low_note: u8, high_note: u8) -> (r: bool)
    ensures
        r == (low_note <= note && note <= high_note),
{
    note >= low_note && note <= high_note
}

/// The latency to report when it changes: none when bypassed, otherwise
/// that of the first voice; `None` when the dry delay already matches.
pub fn latency_update(bypass: bool, delay_latency: u32, voice_latencies: &Vec<u32>) -> (r: Option<u32>)
    requires
        !bypass ==> voice_latencies.len() > 0,
    ensures
        r == if bypass {
            if delay_latency != 0 {
                Some(0u32)
            } else {
                None
            }
        } else if delay_latency != voice_latencies[0] {
            Some(voice_latencies[0])
        } else {
            None
        },
{
    if bypass {
        if delay_latency != 0 {
            Some(0)
        } else {
            None
        }
    } else {
        let latency = crate::delay::latency_average(voice_latencies);
        if delay_latency != latency {
            Some(latency)
        } else {
            None
        }
    }
}

/// The pitch slot of each live voice, from `low_note` to `high_note`, when
/// the shifters run one per pitch class: counting up from `low_note % 12`
/// and wrapping after 11, so each voice gets its own pitch class.
pub fn pitch_slots(low_note: u8, high_note: u8) -> (r: Vec<usize>)
    ensures
        r.len() == if low_note <= high_note {
            high_note - low_note + 1
        } else {
            0
        },
        forall|i: int| 0 <= i < r.len() ==> #[trigger] r@[i] == (low_note + i) % 12,
{
    let mut slots: Vec<usize> = Vec::new();
    let mut index: usize = (low_note % 12) as usize;
    let mut note: u16 = low_note as u16;
    while note <= high_note as u16
        invariant
            low_note <= note <= high_note as int + 1 || (note == low_note && low_note > high_note),
            slots.len() == note - low_note,
            index <= 12,
            index % 12 == note % 12,
            forall|i: int| 0 <= i < slots.len() ==> #[trigger] slots@[i] == (low_note + i) % 12,
        decreases high_note as int + 1 - note,
    {
        if index >= 12 {
            index = 0;
        }
        slots.push(index);
        index = index + 1;
        note = note + 1;
    }
    slots
}

} // verus!
