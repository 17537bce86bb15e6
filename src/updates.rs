//! Parameter changes reach the audio thread as raised flags, one per kind of
//! change; at the start of each block the flags are taken and the changes
//! applied in a fixed order. A pitch change also re-centres the band-pass
//! filters, so it takes the band-pass flag down with it.

use vstd::prelude::*;

verus! {

/// A change to apply at the start of a block.
#[derive(Debug, Clone, Copy, PartialEq, Eq, Structural)]
pub enum Update {
    /// Apply the user's GUI scale.
    GuiScale,
    /// Move the low-pass corner, and re-plan which voices hold a shifter.
    Lowpass,
    /// Move the high-pass corner.
    Highpass,
    /// New pitch ratios and band-pass centres from the current note table.
    PitchAndBandpass,
    /// New band-pass centres only.
    BandpassCentre,
    /// New over-sampling factor for every shifter.
    OverSampling,
    /// New window duration: every shifter is rebuilt.
    WindowDuration,
    /// Re-plan which voices hold a shifter.
    Node12,
    /// Rebuild the note table of the current mode.
    KeyNote,
    /// Rebuild the note table of the twelve note toggles.
    KeyNote12,
}

/// The flags raised since the last block.
#[derive(Debug, Clone, Copy, PartialEq, Eq, Structural)]
pub struct PendingUpdates {
    pub gui_scale: bool,
    pub lowpass: bool,
    pub highpass: bool,
    pub pitch_and_bandpass: bool,
    pub bandpass_centre: bool,
    pub over_sampling: bool,
    pub window_duration: bool,
    pub node_12: bool,
    pub key_note: bool,
    pub key_note_12: bool,
}

/// `u` once when `raised`, else nothing.
pub open spec fn when(raised: bool, u: Update) -> Seq<Update> {
    if raised {
        seq![u]
    } else {
        Seq::empty()
    }
}

/// The changes that the flags `p` call for, in the order they are applied.
pub open spec fn planned(p: PendingUpdates) -> Seq<Update> {
    when(p.gui_scale, Update::GuiScale) + when(p.lowpass, Update::Lowpass) + when(
        p.highpass,
        Update::Highpass,
    ) + when(p.pitch_and_bandpass, Update::PitchAndBandpass) + when(
        p.bandpass_centre && !p.pitch_and_bandpass,
        Update::BandpassCentre,
    ) + when(p.over_sampling, Update::OverSampling) + when(p.window_duration, Update::WindowDuration)
        + when(p.node_12, Update::Node12) + when(p.key_note, Update::KeyNote) + when(
        p.key_note_12,
        Update::KeyNote12,
    )
}

/// Appends `u` to `plan` when `raised`.
fn push_when(plan: &mut Vec<Update>, raised: bool, u: Update)
    ensures
        final(plan)@ == old(plan)@ + when(raised, u),
{
    if raised {
        plan.push(u);
    }
    assert(plan@ =~= old(plan)@ + when(raised, u));
}

impl PendingUpdates {
    /// No flag raised.
    pub fn new() -> (r: PendingUpdates)
        ensures
            planned(r) == Seq::<Update>::empty(),
    {
        let r = PendingUpdates {
            gui_scale: false,
            lowpass: false,
            highpass: false,
            pitch_and_bandpass: false,
            bandpass_centre: false,
            over_sampling: false,
            window_duration: false,
            node_12: false,
            key_note: false,
            key_note_12: false,
        };
        assert(planned(r) =~= Seq::<Update>::empty());
        r
    }

    /// The changes to apply, in order: GUI scale, low-pass, high-pass, pitch
    /// and band-pass, band-pass alone (not after a pitch change),
    /// over-sampling, window duration, shifter planning, then the note tables.
    pub fn plan(&self) -> (r: Vec<Update>)
        ensures
            r@ == planned(*self),
    {
        let mut plan: Vec<Update> = Vec::new();
        push_when(&mut plan, self.gui_scale, Update::GuiScale);
        push_when(&mut plan, self.lowpass, Update::Lowpass);
        push_when(&mut plan, self.highpass, Update::Highpass);
        push_when(&mut plan, self.pitch_and_bandpass, Update::PitchAndBandpass);
        push_when(&mut plan, self.bandpass_centre && !self.pitch_and_bandpass, Update::BandpassCentre);
        push_when(&mut plan, self.over_sampling, Update::OverSampling);
        push_when(&mut plan, self.window_duration, Update::WindowDuration);
        push_when(&mut plan, self.node_12, Update::Node12);
        push_when(&mut plan, self.key_note, Update::KeyNote);
        push_when(&mut plan, self.key_note_12, Update::KeyNote12);
        assert(plan@ =~= planned(*self));
        plan
    }
}

} // verus!
