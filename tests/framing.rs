use pitch_shift::framing::FrameFifo;
use pitch_shift::layout::{ConfigError, FrameLayout};

/// 100 Hz, 80 ms: a frame of 8 samples.
fn fifo(over_sampling: u8) -> FrameFifo<i64> {
    FrameFifo::new(FrameLayout::new(80, 100, over_sampling).unwrap(), 0)
}

/// Pushes `x`; on a completed frame adds the frame, divided by the
/// over-sampling factor, into the accumulator and finishes the hop.
fn identity_step(f: &mut FrameFifo<i64>, x: i64) -> i64 {
    let out = f.push(x);
    if f.frame_complete() {
        let size = f.layout().frame_size() as usize;
        let os = f.layout().over_sampling() as i64;
        let frame = f.frame().clone();
        for k in 0..size {
            let v = f.accumulated(k) + frame[k] / os;
            f.set_accumulated(k, v);
        }
        f.finish_hop();
    }
    out
}

#[test]
fn frame_completes_after_one_hop() {
    let mut f = fifo(4);
    assert_eq!(f.get_latency(), 6);
    assert!(!f.frame_complete());
    f.push(1);
    assert!(!f.frame_complete());
    f.push(2);
    assert!(f.frame_complete());
    // six samples of silence, then the first hop
    assert_eq!(f.frame(), &vec![0, 0, 0, 0, 0, 0, 1, 2]);
}

#[test]
fn frames_slide_by_one_hop() {
    let mut f = fifo(4);
    f.push(1);
    f.push(2);
    f.finish_hop();
    f.push(3);
    f.push(4);
    assert!(f.frame_complete());
    assert_eq!(f.frame(), &vec![0, 0, 0, 0, 1, 2, 3, 4]);
    f.finish_hop();
    f.push(5);
    f.push(6);
    assert_eq!(f.frame(), &vec![0, 0, 1, 2, 3, 4, 5, 6]);
}

#[test]
fn hop_hands_out_start_of_accumulator() {
    let mut f = fifo(4);
    f.push(1);
    f.push(2);
    for k in 0..8 {
        f.set_accumulated(k, 10 * (k as i64 + 1));
    }
    f.finish_hop();
    assert_eq!(f.push(0), 10);
    assert_eq!(f.push(0), 20);
    // the accumulator moved left by one hop, silence behind
    let acc: Vec<i64> = (0..8).map(|k| f.accumulated(k)).collect();
    assert_eq!(acc, vec![30, 40, 50, 60, 70, 80, 0, 0]);
}

#[test]
fn identity_resynthesis_delays_by_one_frame() {
    let mut f = fifo(4);
    let input: Vec<i64> = (1..=40).map(|i| 4 * i).collect();
    let output: Vec<i64> = input.iter().map(|&x| identity_step(&mut f, x)).collect();
    assert!(output[..8].iter().all(|&y| y == 0));
    assert_eq!(&output[8..], &input[..32]);
}

#[test]
fn reset_silences_the_next_hop() {
    let mut f = fifo(2);
    for i in 1..=20 {
        identity_step(&mut f, 2 * i);
    }
    f.reset();
    assert!(!f.frame_complete());
    // latency 4, hop 4: the next four samples are silence
    assert_eq!(f.get_latency(), 4);
    for i in 0..4 {
        assert_eq!(f.push(100 + i), 0);
    }
}

#[test]
fn over_sampling_change_moves_the_cursor() {
    let mut f = fifo(4);
    assert_eq!(f.set_over_sampling(2), Ok(()));
    assert_eq!(f.get_latency(), 4);
    for i in 0..3 {
        f.push(i);
        assert!(!f.frame_complete());
    }
    f.push(3);
    assert!(f.frame_complete());
    assert_eq!(f.set_over_sampling(0), Err(ConfigError::InvalidConfiguration));
    assert_eq!(f.set_over_sampling(9), Err(ConfigError::InvalidConfiguration));
    assert_eq!(f.get_latency(), 4);
}

#[test]
fn float_samples_pass_through() {
    let mut f: FrameFifo<f32> = FrameFifo::new(FrameLayout::new(80, 100, 8).unwrap(), 0.0);
    assert_eq!(f.get_latency(), 7);
    assert_eq!(f.push(0.5), 0.0);
    assert!(f.frame_complete());
    f.set_accumulated(0, 0.25);
    f.finish_hop();
    assert_eq!(f.push(1.0), 0.25);
}
