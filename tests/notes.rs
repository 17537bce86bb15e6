use pitch_shift::notes::{
    bandpass_semitones, effective_note_pitch, MidiNote, NoteModeMidi, NoteTablesArray, PitchShiftNode,
    OFF_KEY,
};

const C_ONLY: [bool; 12] = [true, false, false, false, false, false, false, false, false, false, false, false];
const C_MAJOR: [bool; 12] = [true, false, true, false, true, true, false, true, false, true, false, true];

fn keys_of(scale: &[bool; 12]) -> [bool; 96] {
    let mut keys = [false; 96];
    for i in 0..96 {
        keys[i] = scale[i % 12];
    }
    keys
}

#[test]
fn keys_get_zero_and_neighbours_their_shift() {
    let m = MidiNote::new();
    let mut t = [OFF_KEY; 96];
    m.find_off_key(7, false, &keys_of(&C_ONLY), &mut t);
    assert_eq!(t[0], 0);
    assert_eq!(t[12], 0);
    assert_eq!(t[5], -5);
    assert_eq!(t[7], 5);
    assert_eq!(t[1], -1);
    assert_eq!(t[11], 1);
    // halfway between two keys: the upper one without rounding up
    assert_eq!(t[6], 6);
    // the last key is 84; 95 is 11 away
    assert_eq!(t[90], -6);
    assert_eq!(t[91], OFF_KEY);
}

#[test]
fn round_up_picks_the_lower_key_on_a_tie() {
    let m = MidiNote::new();
    let mut t = [OFF_KEY; 96];
    m.find_off_key(7, true, &keys_of(&C_ONLY), &mut t);
    assert_eq!(t[6], -6);
    assert_eq!(t[18], -6);
    assert_eq!(t[5], -5);
    assert_eq!(t[7], 5);
}

#[test]
fn range_limits_the_search() {
    let m = MidiNote::new();
    let mut t = [OFF_KEY; 96];
    m.find_off_key(6, false, &keys_of(&C_ONLY), &mut t);
    assert_eq!(t[5], -5);
    assert_eq!(t[6], OFF_KEY);
    let mut u = [OFF_KEY; 96];
    m.find_off_key(1, false, &keys_of(&C_MAJOR), &mut u);
    assert_eq!(u[0], 0);
    assert_eq!(u[2], 0);
    assert_eq!(u[1], OFF_KEY);
}

#[test]
fn zero_range_changes_nothing() {
    let m = MidiNote::new();
    let mut t = [5i8; 96];
    m.find_off_key(0, false, &keys_of(&C_MAJOR), &mut t);
    assert_eq!(t, [5i8; 96]);
}

#[test]
fn decided_notes_keep_their_entry() {
    let m = MidiNote::new();
    let mut t = [OFF_KEY; 96];
    t[1] = 3;
    t[0] = 9;
    m.find_off_key(2, true, &keys_of(&C_MAJOR), &mut t);
    assert_eq!(t[0], 0);
    assert_eq!(t[1], 3);
    assert_eq!(t[3], -1);
}

#[test]
fn large_range_reaches_every_note() {
    let m = MidiNote::new();
    let mut keys = [false; 96];
    keys[95] = true;
    let mut t = [OFF_KEY; 96];
    m.find_off_key(1000, false, &keys, &mut t);
    assert_eq!(t[0], 95);
    assert_eq!(t[95], 0);
}

#[test]
fn update_builds_the_scale_table() {
    let mut m = MidiNote::new();
    let t = m.update(&C_MAJOR, 2, false);
    assert_eq!(m.i2t, t);
    assert_eq!(m.im2t, [0i8; 96]);
    assert_eq!(t[0], 0);
    assert_eq!(t[1], 1);
    assert_eq!(t[3], 1);
    assert_eq!(t[6], 1);
    assert_eq!(t[10], 1);
    let r = m.update(&C_MAJOR, 2, true);
    assert_eq!(r[1], -1);
    assert_eq!(r[6], -1);
}

#[test]
fn midi_scale_uses_the_pitch_classes_held() {
    let mut m = MidiNote::new();
    m.set_midi_note(60, true);
    let t = m.update_midi(NoteModeMidi::MidiScale, 7, false);
    assert_eq!(m.im2t, t);
    let mut expected = [OFF_KEY; 96];
    m.find_off_key(7, false, &keys_of(&C_ONLY), &mut expected);
    assert_eq!(t, expected);
}

#[test]
fn midi_whistle_uses_the_notes_held() {
    let mut m = MidiNote::new();
    m.set_midi_note(60, true);
    let t = m.update_midi(NoteModeMidi::MidiWhistle, 2, false);
    assert_eq!(t[48], 0);
    assert_eq!(t[47], 1);
    assert_eq!(t[49], -1);
    assert_eq!(t[36], OFF_KEY);
    m.set_midi_note(60, false);
    let u = m.update_midi(NoteModeMidi::MidiWhistle, 2, false);
    assert_eq!(u, [OFF_KEY; 96]);
}

#[test]
fn scale_mode_midi_table_is_zero() {
    let mut m = MidiNote::new();
    m.set_midi_note(60, true);
    assert_eq!(m.update_midi(NoteModeMidi::Scale, 2, false), [0i8; 96]);
}

#[test]
fn param_update_picks_the_table() {
    let mut m = MidiNote::new();
    m.set_midi_note(24, true);
    let t = m.param_update(NoteModeMidi::Scale, &C_MAJOR, 2, false);
    assert_eq!(m.i2t, t);
    assert_eq!(m.note_pitch(NoteModeMidi::Scale, 1), 1);
    let u = m.param_update(NoteModeMidi::MidiWhistle, &C_MAJOR, 2, false);
    assert_eq!(m.im2t, u);
    assert_eq!(m.note_pitch(NoteModeMidi::MidiWhistle, 13), -1);
    assert_eq!(m.note_pitch(NoteModeMidi::MidiWhistle, 11), 1);
    assert_eq!(m.note_pitch(NoteModeMidi::MidiScale, 12), 0);
    assert_eq!(m.note_pitch(NoteModeMidi::MidiScale, 40), OFF_KEY);
}

#[test]
fn effective_pitch_and_semitones() {
    assert_eq!(effective_note_pitch(3, false), 3);
    assert_eq!(effective_note_pitch(3, true), 0);
    assert_eq!(effective_note_pitch(OFF_KEY, false), 0);
    assert_eq!(bandpass_semitones(33, 0, false), 0);
    assert_eq!(bandpass_semitones(95, 72, false), 134);
    assert_eq!(bandpass_semitones(0, -5, false), -38);
    assert_eq!(bandpass_semitones(40, -5, true), 7);
}

#[test]
fn plain_types_compare() {
    assert_eq!(PitchShiftNode::Node12, PitchShiftNode::Node12);
    assert_ne!(NoteModeMidi::Scale, NoteModeMidi::MidiScale);
    let a = NoteTablesArray { i104: [0; 104] };
    let b = a;
    assert_eq!(b.i104[103], 0);
}

#[test]
fn default_midi_note_is_empty() {
    let m = MidiNote::default();
    assert_eq!(m.midi_note, [false; 96]);
    assert_eq!(m.i2t, [0i8; 96]);
    assert_eq!(m.im2t, [0i8; 96]);
}
