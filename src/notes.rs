//! Note tables of the key-remapping voices: for each of 96 notes, how many
//! semitones to shift it to reach the nearest note of the chosen scale
//! (0 on the scale, -128 for a note left without one).

use vstd::prelude::*;

verus! {

/// Marks a note that no scale note is close enough to.
pub const OFF_KEY: i8 = -128;

/// Whether `y` is a note of the table that `keys` marks.
pub open spec fn is_key(keys: Seq<bool>, y: int) -> bool {
    0 <= y < 96 && keys[y]
}

/// The shift that moves note `x` onto a key exactly `d` semitones away:
/// `-d` for a key below, `d` for one above; with keys on both sides the lower
/// one wins when `round_up` holds, the upper one otherwise. `OFF_KEY` when
/// neither side has a key.
pub open spec fn shift_at_distance(keys: Seq<bool>, x: int, d: int, round_up: bool) -> int {
    let below = is_key(keys, x - d);
    let above = is_key(keys, x + d);
    if below && above {
        if round_up {
            -d
        } else {
            d
        }
    } else if below {
        -d
    } else if above {
        d
    } else {
        OFF_KEY as int
    }
}

/// The shift to the nearest key at a distance from `d` up to (not including) `n`.
pub open spec fn nearest_shift(keys: Seq<bool>, x: int, d: int, n: int, round_up: bool) -> int
    decreases n - d,
{
    if d >= n {
        OFF_KEY as int
    } else if shift_at_distance(keys, x, d, round_up) != OFF_KEY as int {
        shift_at_distance(keys, x, d, round_up)
    } else {
        nearest_shift(keys, x, d + 1, n, round_up)
    }
}

/// The search distance that matters: keys lie at most 95 semitones away.
pub open spec fn reach(range: nat) -> int {
    if range < 96 {
        range as int
    } else {
        96
    }
}

/// The entry for note `x` once keys closer than `range` semitones have been
/// looked for, starting from the table `init`: a key gets 0; a note that
/// `init` already decided keeps its entry; an undecided note gets the shift
/// to its nearest key, or stays `OFF_KEY`. A zero range changes nothing.
pub open spec fn off_key_entry(keys: Seq<bool>, range: nat, round_up: bool, init: Seq<i8>, x: int) -> int {
    if range == 0 {
        init[x] as int
    } else if keys[x] {
        0
    } else if init[x] != OFF_KEY {
        init[x] as int
    } else {
        nearest_shift(keys, x, 1, reach(range), round_up)
    }
}

/// Whether the table `t` holds `off_key_entry` for every note.
pub open spec fn is_off_key_table(t: Seq<i8>, keys: Seq<bool>, range: nat, round_up: bool, init: Seq<i8>) -> bool {
    &&& t.len() == 96
    &&& forall|x: int| 0 <= x < 96 ==> t[x] as int == #[trigger] off_key_entry(keys, range, round_up, init, x)
}

/// The 96 keys of a scale given by its twelve pitch classes, C first.
pub open spec fn scale_keys(scale: Seq<bool>) -> Seq<bool> {
    Seq::new(96, |i: int| scale[i % 12])
}

/// The pitch classes of the notes `held`.
pub open spec fn held_classes(held: Seq<bool>) -> Seq<bool> {
    Seq::new(12, |a: int| exists|i: int| 0 <= i < 96 && i % 12 == a && held[i])
}

/// A table with every note undecided.
pub open spec fn undecided() -> Seq<i8> {
    Seq::new(96, |i: int| OFF_KEY)
}

/// Widening the search by one distance only decides the notes still undecided.
proof fn lemma_nearest_extends(keys: Seq<bool>, x: int, d: int, n: int, round_up: bool)
    requires
        d <= n,
    ensures
        nearest_shift(keys, x, d, n + 1, round_up) == if nearest_shift(keys, x, d, n, round_up)
            != OFF_KEY as int {
            nearest_shift(keys, x, d, n, round_up)
        } else {
            shift_at_distance(keys, x, n, round_up)
        },
    decreases n - d,
{
    if d < n {
        lemma_nearest_extends(keys, x, d + 1, n, round_up);
    } else {
        assert(nearest_shift(keys, x, d + 1, n + 1, round_up) == OFF_KEY as int);
    }
}

/// Whether note `j` comes among the first `t` notes of a pass: ascending
/// when `round_up` holds, descending otherwise.
spec fn visited(round_up: bool, t: int, j: int) -> bool {
    if round_up {
        0 <= j < t
    } else {
        95 - t < j < 96
    }
}

/// The entry for note `x` part way through pass `i`, once the first `t`
/// notes of the pass have been visited.
spec fn pass_entry(keys: Seq<bool>, i: int, round_up: bool, init: Seq<i8>, t: int, x: int) -> int {
    let prev = off_key_entry(keys, i as nat, round_up, init, x);
    if i == 0 {
        if keys[x] && visited(round_up, t, x) {
            0
        } else {
            prev
        }
    } else if prev != OFF_KEY as int {
        prev
    } else {
        let below = is_key(keys, x - i) && visited(round_up, t, x - i);
        let above = is_key(keys, x + i) && visited(round_up, t, x + i);
        if below && above {
            if round_up {
                -i
            } else {
                i
            }
        } else if below {
            -i
        } else if above {
            i
        } else {
            OFF_KEY as int
        }
    }
}

/// A full pass `i` turns the table for range `i` into the table for range `i + 1`.
proof fn lemma_pass_complete(keys: Seq<bool>, i: int, round_up: bool, init: Seq<i8>, x: int)
    requires
        0 <= i < 96,
        0 <= x < 96,
        keys.len() == 96,
        init.len() == 96,
    ensures
        pass_entry(keys, i, round_up, init, 96, x) == off_key_entry(keys, (i + 1) as nat, round_up, init, x),
{
    if i > 0 {
        lemma_nearest_extends(keys, x, 1, i, round_up);
    }
}

/// The table before pass `i` is what pass `i` starts from.
proof fn lemma_pass_start(keys: Seq<bool>, i: int, round_up: bool, init: Seq<i8>, x: int)
    requires
        0 <= i < 96,
        0 <= x < 96,
        keys.len() == 96,
        init.len() == 96,
    ensures
        pass_entry(keys, i, round_up, init, 0, x) == off_key_entry(keys, i as nat, round_up, init, x),
{
    if i > 0 && keys[x] {
        assert(off_key_entry(keys, i as nat, round_up, init, x) == 0);
    }
}

/// One visit of pass `i`: the note `j`.
fn visit_note(i: usize, j: usize, round_up: bool, note_on_keys: &[bool; 96], notes_sel: &mut [i8; 96], Ghost(t): Ghost<int>, Ghost(init): Ghost<Seq<i8>>)
    requires
        i < 96,
        0 <= t < 96,
        j == if round_up { t } else { 95 - t },
        init.len() == 96,
        forall|x: int| 0 <= x < 96 ==> old(notes_sel)@[x] as int == #[trigger] pass_entry(note_on_keys@, i as int, round_up, init, t, x),
    ensures
        forall|x: int| 0 <= x < 96 ==> final(notes_sel)@[x] as int == #[trigger] pass_entry(note_on_keys@, i as int, round_up, init, t + 1, x),
{
    let ghost keys = note_on_keys@;
    if note_on_keys[j] {
        proof {
            if i > 0 {
                assert(off_key_entry(keys, i as nat, round_up, init, j as int) == 0);
            }
        }
        notes_sel[j] = 0;
        if j >= i && notes_sel[j - i] == OFF_KEY {
            notes_sel[j - i] = i as i8;
        }
        if j + i <= 95 && notes_sel[j + i] == OFF_KEY {
            notes_sel[j + i] = -(i as i8);
        }
    }
    assert forall|x: int| 0 <= x < 96 implies final(notes_sel)@[x] as int == #[trigger] pass_entry(keys, i as int, round_up, init, t + 1, x) by {
        assert(old(notes_sel)@[x] as int == pass_entry(keys, i as int, round_up, init, t, x));
    }
}

/// Whether a pitch shift ("12") or a band-pass voice per note ("96") runs.
#[derive(Debug, Clone, Copy, PartialEq, Eq, Structural)]
pub enum PitchShiftNode {
    Node96,
    Node12,
}

/// Where the scale comes from: the twelve note toggles, the pitch classes
/// of the MIDI notes held, or the MIDI notes held themselves.
#[derive(Debug, Clone, Copy, PartialEq, Eq, Structural)]
pub enum NoteModeMidi {
    Scale,
    MidiScale,
    MidiWhistle,
}

/// The MIDI notes held and the two note tables built from the scale.
pub struct MidiNote {
    /// For each of the 96 notes, whether its MIDI key is held.
    pub midi_note: [bool; 96],
    /// The table built from the twelve note toggles.
    pub i2t: [i8; 96],
    /// The table built from the MIDI notes held.
    pub im2t: [i8; 96],
}

impl Default for MidiNote {
    /// No note held, both tables zero.
    fn default() -> (r: MidiNote)
        ensures
            r.midi_note@ == Seq::new(96, |i: int| false),
            r.i2t@ == Seq::new(96, |i: int| 0i8),
            r.im2t@ == Seq::new(96, |i: int| 0i8),
    {
        MidiNote::new()
    }
}

impl MidiNote {
    /// No note held, both tables zero.
    pub fn new() -> (r: MidiNote)
        ensures
            r.midi_note@ == Seq::new(96, |i: int| false),
            r.i2t@ == Seq::new(96, |i: int| 0i8),
            r.im2t@ == Seq::new(96, |i: int| 0i8),
    {
        let r = MidiNote { midi_note: [false; 96], i2t: [0; 96], im2t: [0; 96] };
        assert(r.midi_note@ =~= Seq::new(96, |i: int| false));
        assert(r.i2t@ =~= Seq::new(96, |i: int| 0i8));
        assert(r.im2t@ =~= Seq::new(96, |i: int| 0i8));
        r
    }

    /// Rebuilds `i2t` from the twelve note toggles `scale` (C first), looking
    /// for keys up to `find_off_key - 1` semitones away, and returns it.
    pub fn update(&mut self, scale: &[bool; 12], find_off_key: u32, round_up: bool) -> (r: [i8; 96])
        ensures
            is_off_key_table(r@, scale_keys(scale@), find_off_key as nat, round_up, undecided()),
            final(self).i2t == r,
            final(self).im2t == old(self).im2t,
            final(self).midi_note == old(self).midi_note,
    {
        let mut note_on_keys = [false; 96];
        let mut i: usize = 0;
        while i < 96
            invariant
                i <= 96,
                forall|x: int| 0 <= x < i ==> note_on_keys@[x] == scale@[x % 12],
            decreases 96 - i,
        {
            note_on_keys[i] = scale[i % 12];
            i = i + 1;
        }
        assert(note_on_keys@ =~= scale_keys(scale@));
        let mut notes_sel: [i8; 96] = [OFF_KEY; 96];
        assert(notes_sel@ =~= undecided());
        self.find_off_key(find_off_key, round_up, &note_on_keys, &mut notes_sel);
        self.i2t = notes_sel;
        notes_sel
    }

    /// Rebuilds `im2t` from the MIDI notes held and returns it: in
    /// `MidiScale` mode the scale is the pitch classes held, in
    /// `MidiWhistle` mode the notes held themselves; in `Scale` mode the
    /// table is all zeros.
    pub fn update_midi(&mut self, mode: NoteModeMidi, find_off_key: u32, round_up: bool) -> (r: [i8; 96])
        ensures
            mode == NoteModeMidi::MidiScale ==> is_off_key_table(
                r@,
                scale_keys(held_classes(old(self).midi_note@)),
                find_off_key as nat,
                round_up,
                undecided(),
            ),
            mode == NoteModeMidi::MidiWhistle ==> is_off_key_table(
                r@,
                old(self).midi_note@,
                find_off_key as nat,
                round_up,
                undecided(),
            ),
            mode == NoteModeMidi::Scale ==> r@ == Seq::new(96, |i: int| 0i8),
            final(self).im2t == r,
            final(self).i2t == old(self).i2t,
            final(self).midi_note == old(self).midi_note,
    {
        let mut notes: [i8; 96] = [0; 96];
        match mode {
            NoteModeMidi::MidiScale => {
                let mut note_keys = [false; 12];
                let mut i: usize = 0;
                while i < 96
                    invariant
                        i <= 96,
                        forall|a: int| 0 <= a < 12 ==> note_keys@[a] == exists|y: int|
                            0 <= y < i && y % 12 == a && self.midi_note@[y],
                    decreases 96 - i,
                {
                    if self.midi_note[i] {
                        note_keys[i % 12] = true;
                    }
                    i = i + 1;
                }
                assert(note_keys@ =~= held_classes(self.midi_note@));
                let mut note_on_keys = [false; 96];
                i = 0;
                while i < 96
                    invariant
                        i <= 96,
                        forall|x: int| 0 <= x < i ==> note_on_keys@[x] == note_keys@[x % 12],
                    decreases 96 - i,
                {
                    note_on_keys[i] = note_keys[i % 12];
                    i = i + 1;
                }
                assert(note_on_keys@ =~= scale_keys(held_classes(self.midi_note@)));
                let mut notes_sel: [i8; 96] = [OFF_KEY; 96];
                assert(notes_sel@ =~= undecided());
                self.find_off_key(find_off_key, round_up, &note_on_keys, &mut notes_sel);
                notes = notes_sel;
            },
            NoteModeMidi::MidiWhistle => {
                let mut notes_sel: [i8; 96] = [OFF_KEY; 96];
                assert(notes_sel@ =~= undecided());
                let held = self.midi_note;
                self.find_off_key(find_off_key, round_up, &held, &mut notes_sel);
                notes = notes_sel;
            },
            NoteModeMidi::Scale => {
                assert(notes@ =~= Seq::new(96, |i: int| 0i8));
            },
        }
        self.im2t = notes;
        notes
    }

    /// Rebuilds the table that `mode` uses and returns it: `update_midi` in
    /// the MIDI modes, `update` from the note toggles otherwise.
    pub fn param_update(&mut self, mode: NoteModeMidi, scale: &[bool; 12], find_off_key: u32, round_up: bool) -> (r: [i8; 96])
        ensures
            mode == NoteModeMidi::Scale ==> is_off_key_table(
                r@,
                scale_keys(scale@),
                find_off_key as nat,
                round_up,
                undecided(),
            ) && final(self).i2t == r && final(self).im2t == old(self).im2t,
            mode == NoteModeMidi::MidiScale ==> is_off_key_table(
                r@,
                scale_keys(held_classes(old(self).midi_note@)),
                find_off_key as nat,
                round_up,
                undecided(),
            ) && final(self).im2t == r && final(self).i2t == old(self).i2t,
            mode == NoteModeMidi::MidiWhistle ==> is_off_key_table(
                r@,
                old(self).midi_note@,
                find_off_key as nat,
                round_up,
                undecided(),
            ) && final(self).im2t == r && final(self).i2t == old(self).i2t,
            final(self).midi_note == old(self).midi_note,
    {
        match mode {
            NoteModeMidi::MidiScale | NoteModeMidi::MidiWhistle => self.update_midi(mode, find_off_key, round_up),
            NoteModeMidi::Scale => self.update(scale, find_off_key, round_up),
        }
    }

    /// The shift of voice `note` in the table that `mode` uses.
    pub fn note_pitch(&self, mode: NoteModeMidi, note: usize) -> (r: i8)
        requires
            note < 96,
        ensures
            r == if mode == NoteModeMidi::Scale {
                self.i2t@[note as int]
            } else {
                self.im2t@[note as int]
            },
    {
        match mode {
            NoteModeMidi::MidiWhistle | NoteModeMidi::MidiScale => self.im2t[note],
            NoteModeMidi::Scale => self.i2t[note],
        }
    }

    /// Records MIDI note `note` (12 to 107) as held or released.
    pub fn set_midi_note(&mut self, note: u8, held: bool)
        requires
            12 <= note < 108,
        ensures
            final(self).midi_note@ == old(self).midi_note@.update(note - 12, held),
            final(self).i2t == old(self).i2t,
            final(self).im2t == old(self).im2t,
    {
        self.midi_note[(note - 12) as usize] = held;
    }

    /// Fills `notes_sel` for the keys `note_on_keys`, looking for keys up to
    /// `find_off_key - 1` semitones away: see `off_key_entry`.
    pub fn find_off_key(&self, find_off_key: u32, round_up: bool, note_on_keys: &[bool; 96], notes_sel: &mut [i8; 96])
        ensures
            is_off_key_table(final(notes_sel)@, note_on_keys@, find_off_key as nat, round_up, old(notes_sel)@),
    {
        let ghost keys = note_on_keys@;
        let ghost init = old(notes_sel)@;
        let passes: usize = if find_off_key < 96 { find_off_key as usize } else { 96 };
        let mut i: usize = 0;
        while i < passes
            invariant
                passes == reach(find_off_key as nat),
                i <= passes,
                keys == note_on_keys@,
                init.len() == 96,
                forall|x: int| 0 <= x < 96 ==> notes_sel@[x] as int == #[trigger] off_key_entry(keys, i as nat, round_up, init, x),
            decreases passes - i,
        {
            assert forall|x: int| 0 <= x < 96 implies notes_sel@[x] as int == #[trigger] pass_entry(keys, i as int, round_up, init, 0, x) by {
                lemma_pass_start(keys, i as int, round_up, init, x);
            }
            let mut t: usize = 0;
            while t < 96
                invariant
                    i < 96,
                    t <= 96,
                    keys == note_on_keys@,
                    init.len() == 96,
                    forall|x: int| 0 <= x < 96 ==> notes_sel@[x] as int == #[trigger] pass_entry(keys, i as int, round_up, init, t as int, x),
                decreases 96 - t,
            {
                let j: usize = if round_up { t } else { 95 - t };
                visit_note(i, j, round_up, note_on_keys, notes_sel, Ghost(t as int), Ghost(init));
                t = t + 1;
            }
            let ghost next: nat = (i + 1) as nat;
            assert forall|x: int| 0 <= x < 96 implies notes_sel@[x] as int == #[trigger] off_key_entry(keys, next, round_up, init, x) by {
                lemma_pass_complete(keys, i as int, round_up, init, x);
            }
            i = i + 1;
            assert(i as nat == next);
        }
        assert forall|x: int| 0 <= x < 96 implies notes_sel@[x] as int == #[trigger] off_key_entry(keys, find_off_key as nat, round_up, init, x) by {
            assert(off_key_entry(keys, passes as nat, round_up, init, x) == off_key_entry(keys, find_off_key as nat, round_up, init, x));
        }
    }
}


/// A stored note table of 104 entries.
#[derive(Clone, Copy)]
pub struct NoteTablesArray {
    pub i104: [i8; 104],
}

/// The shift a voice applies: its table entry, or none when the voice is
/// off key or pitch shifting is muted.
pub fn effective_note_pitch(note_pitch: i8, mute_pitch: bool) -> (r: i8)
    ensures
        r == if note_pitch == OFF_KEY || mute_pitch {
            0
        } else {
            note_pitch
        },
{
    if note_pitch == OFF_KEY || mute_pitch {
        0
    } else {
        note_pitch
    }
}

/// Semitones from the reference pitch to the band-pass centre of voice
/// `note`: `note - 33`, moved by the voice's effective shift.
pub fn bandpass_semitones(note: u8, note_pitch: i8, mute_pitch: bool) -> (r: i32)
    ensures
        r == note - 33 + effective_note_pitch_of(note_pitch, mute_pitch),
{
    note as i32 - 33 + effective_note_pitch(note_pitch, mute_pitch) as i32
}

/// The shift a voice applies, as in `effective_note_pitch`.
pub open spec fn effective_note_pitch_of(note_pitch: i8, mute_pitch: bool) -> int {
    if note_pitch == OFF_KEY || mute_pitch {
        0
    } else {
        note_pitch as int
    }
}

} // verus!
