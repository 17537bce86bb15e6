use pitch_shift::delay::{latency_average, stereo_latency, Delay};

#[test]
fn new_delay_holds_one_sample() {
    let mut d = Delay::new(0.0f32);
    assert_eq!(d.get_latency(), 1);
    assert_eq!(d.process(0.5, 0), 0.0);
    assert_eq!(d.process(0.75, 0), 0.5);
    assert_eq!(d.process(0.25, 1), 0.0);
}

#[test]
fn samples_come_back_after_the_delay() {
    let mut d = Delay::new(0i32);
    d.set_delay(3);
    assert_eq!(d.get_latency(), 3);
    let out: Vec<i32> = (1..=6).map(|x| d.process(x, 1)).collect();
    assert_eq!(out, vec![0, 0, 0, 1, 2, 3]);
    // the other channel is untouched
    assert_eq!(d.process(9, 0), 0);
}

#[test]
fn zero_delay_passes_through() {
    let mut d = Delay::new(0i32);
    d.set_delay(0);
    assert_eq!(d.get_latency(), 0);
    assert_eq!(d.process(7, 0), 7);
    assert_eq!(d.process(8, 1), 8);
}

#[test]
fn shortening_keeps_the_oldest_samples() {
    let mut d = Delay::new(0i32);
    d.set_delay(4);
    for x in 1..=4 {
        d.process(x, 0);
    }
    d.set_delay(2);
    assert_eq!(d.process(10, 0), 1);
    assert_eq!(d.process(11, 0), 2);
    assert_eq!(d.process(12, 0), 10);
}

#[test]
fn reset_silences_both_lines() {
    let mut d = Delay::new(0i32);
    d.set_delay(2);
    d.process(5, 0);
    d.process(6, 1);
    d.reset();
    assert_eq!(d.get_latency(), 2);
    assert_eq!(d.process(1, 0), 0);
    assert_eq!(d.process(1, 1), 0);
}

#[test]
fn latency_of_the_first_voice() {
    assert_eq!(latency_average(&vec![1655, 20, 3]), 1655);
    assert_eq!(latency_average(&vec![0]), 0);
}

#[test]
fn stereo_latency_is_the_mean() {
    assert_eq!(stereo_latency(1655, 1655), 1655);
    assert_eq!(stereo_latency(3, 4), 3);
    assert_eq!(stereo_latency(u32::MAX, u32::MAX), u32::MAX);
}
