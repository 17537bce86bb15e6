use pitch_shift::notes::{PitchShiftNode, OFF_KEY};
use pitch_shift::updates::{PendingUpdates, Update};
use pitch_shift::voice::{
    has_tuning, in_voice_range, latency_update, pitch_slots, runs_pitch_shifter, voice_gain, VoiceGain,
};

#[test]
fn gains_by_table_entry() {
    assert_eq!(voice_gain(0, true), VoiceGain::InKey);
    assert_eq!(voice_gain(0, false), VoiceGain::InKey);
    assert_eq!(voice_gain(OFF_KEY, true), VoiceGain::OffKey);
    assert_eq!(voice_gain(2, false), VoiceGain::OffKey);
    assert_eq!(voice_gain(-3, true), VoiceGain::Tuning);
}

#[test]
fn pitch_shifter_runs_only_for_shifted_voices() {
    assert!(runs_pitch_shifter(true, 2, PitchShiftNode::Node12, false));
    assert!(!runs_pitch_shifter(true, 2, PitchShiftNode::Node96, false));
    assert!(runs_pitch_shifter(true, 2, PitchShiftNode::Node96, true));
    assert!(!runs_pitch_shifter(false, 2, PitchShiftNode::Node12, true));
    assert!(!runs_pitch_shifter(true, 0, PitchShiftNode::Node12, true));
    assert!(!runs_pitch_shifter(true, OFF_KEY, PitchShiftNode::Node12, true));
}

#[test]
fn tuning_for_twelve_voices_from_the_lowest() {
    assert!(has_tuning(PitchShiftNode::Node96, 90, 0));
    assert!(has_tuning(PitchShiftNode::Node12, 0, 0));
    assert!(has_tuning(PitchShiftNode::Node12, 11, 0));
    assert!(!has_tuning(PitchShiftNode::Node12, 12, 0));
    assert!(has_tuning(PitchShiftNode::Node12, 30, 20));
    assert!(!has_tuning(PitchShiftNode::Node12, 32, 20));
    assert!(has_tuning(PitchShiftNode::Node12, 255, 250));
}

#[test]
fn live_voices_between_low_and_high() {
    assert!(in_voice_range(10, 10, 20));
    assert!(in_voice_range(20, 10, 20));
    assert!(!in_voice_range(9, 10, 20));
    assert!(!in_voice_range(21, 10, 20));
}

#[test]
fn latency_changes_reported_once() {
    assert_eq!(latency_update(false, 0, &vec![1655, 1655]), Some(1655));
    assert_eq!(latency_update(false, 1655, &vec![1655, 1655]), None);
    assert_eq!(latency_update(true, 1655, &vec![1655]), Some(0));
    assert_eq!(latency_update(true, 0, &vec![]), None);
}

#[test]
fn pitch_change_takes_the_bandpass_flag_down() {
    let mut p = PendingUpdates::new();
    assert!(p.plan().is_empty());
    p.bandpass_centre = true;
    assert_eq!(p.plan(), vec![Update::BandpassCentre]);
    p.pitch_and_bandpass = true;
    p.key_note_12 = true;
    p.gui_scale = true;
    assert_eq!(p.plan(), vec![Update::GuiScale, Update::PitchAndBandpass, Update::KeyNote12]);
}

#[test]
fn every_flag_in_its_place() {
    let p = PendingUpdates {
        gui_scale: true,
        lowpass: true,
        highpass: true,
        pitch_and_bandpass: false,
        bandpass_centre: true,
        over_sampling: true,
        window_duration: true,
        node_12: true,
        key_note: true,
        key_note_12: true,
    };
    assert_eq!(
        p.plan(),
        vec![
            Update::GuiScale,
            Update::Lowpass,
            Update::Highpass,
            Update::BandpassCentre,
            Update::OverSampling,
            Update::WindowDuration,
            Update::Node12,
            Update::KeyNote,
            Update::KeyNote12,
        ]
    );
}

#[test]
fn pitch_slots_follow_pitch_classes() {
    assert_eq!(pitch_slots(10, 15), vec![10, 11, 0, 1, 2, 3]);
    assert_eq!(pitch_slots(0, 0), vec![0]);
    assert_eq!(pitch_slots(5, 4), Vec::<usize>::new());
    assert_eq!(pitch_slots(250, 255), vec![10, 11, 0, 1, 2, 3]);
    let all = pitch_slots(0, 95);
    assert_eq!(all.len(), 96);
    assert_eq!(all[95], 11);
}
