//! A two-channel delay line that keeps a dry signal aligned with the pitch
//! shifters' latency, and the latency bookkeeping around it.

use vstd::prelude::*;
use crate::framing::silent;

verus! {

/// What a `Delay` holds: one line per channel, oldest sample first.
pub struct DelayModel<S> {
    pub lines: Seq<Seq<S>>,
    pub silence: S,
}

/// `line` made `len` samples long: cut at the end, or lengthened with silence.
pub open spec fn resized<S>(line: Seq<S>, len: nat, silence: S) -> Seq<S> {
    if len <= line.len() {
        line.take(len as int)
    } else {
        line + silent((len - line.len()) as nat, silence)
    }
}

impl<S> DelayModel<S> {
    /// Two lines of the same length, which fits in 32 bits.
    pub open spec fn valid(self) -> bool {
        &&& self.lines.len() == 2
        &&& self.lines[0].len() == self.lines[1].len()
        &&& self.lines[0].len() <= u32::MAX
    }

    /// The number of samples each line holds.
    pub open spec fn latency(self) -> nat {
        self.lines[0].len()
    }

    /// The state after `x` enters line `channel` and its oldest sample leaves.
    pub open spec fn pushed(self, channel: int, x: S) -> DelayModel<S> {
        DelayModel {
            lines: self.lines.update(channel, self.lines[channel].push(x).skip(1)),
            ..self
        }
    }

    /// The samples that line `channel` hands out when `xs` enter it one after the other.
    pub open spec fn outputs(self, channel: int, xs: Seq<S>) -> Seq<S>
        decreases xs.len(),
    {
        if xs.len() == 0 {
            Seq::empty()
        } else {
            seq![self.lines[channel].push(xs[0])[0]] + self.pushed(channel, xs[0]).outputs(
                channel,
                xs.skip(1),
            )
        }
    }
}

/// A delay line per channel of a stereo signal.
pub struct Delay<S> {
    left: Vec<S>,
    right: Vec<S>,
    silence: S,
}

impl<S> View for Delay<S> {
    type V = DelayModel<S>;

    closed spec fn view(&self) -> DelayModel<S> {
        DelayModel { lines: seq![self.left@, self.right@], silence: self.silence }
    }
}

/// Makes `line` `len` samples long, cutting at the end or adding silence.
fn resize_line<S: Copy>(line: &mut Vec<S>, len: u32, silence: S)
    ensures
        final(line)@ == resized(old(line)@, len as nat, silence),
{
    if (len as usize) <= line.len() {
        line.truncate(len as usize);
    } else {
        let ghost start = old(line)@;
        while line.len() < len as usize
            invariant
                start.len() <= line@.len() <= len,
                line@ == start + silent((line@.len() - start.len()) as nat, silence),
            decreases len - line@.len(),
        {
            line.push(silence);
            assert(line@ =~= start + silent((line@.len() - start.len()) as nat, silence));
        }
    }
}

/// Puts `x` at the end of `line` and takes its oldest sample out.
fn shift_line<S: Copy>(line: &mut Vec<S>, x: S) -> (r: S)
    ensures
        r == old(line)@.push(x)[0],
        final(line)@ == old(line)@.push(x).skip(1),
{
    line.push(x);
    let r = line.remove(0);
    assert(line@ =~= old(line)@.push(x).skip(1));
    r
}

/// Fills `line` with silence.
fn silence_line<S: Copy>(line: &mut Vec<S>, silence: S)
    ensures
        final(line)@ == silent(old(line)@.len(), silence),
{
    let mut k: usize = 0;
    while k < line.len()
        invariant
            line@.len() == old(line)@.len(),
            k <= line@.len(),
            forall|i: int| 0 <= i < k ==> line@[i] == silence,
        decreases line@.len() - k,
    {
        line.set(k, silence);
        k = k + 1;
    }
    assert(line@ =~= silent(old(line)@.len(), silence));
}

impl<S: Copy> Delay<S> {
    /// A delay of one sample on each channel, holding silence.
    pub fn new(silence: S) -> (r: Delay<S>)
        ensures
            r@.lines == seq![seq![silence], seq![silence]],
            r@.silence == silence,
            r@.valid(),
    {
        let mut left: Vec<S> = Vec::new();
        left.push(silence);
        let mut right: Vec<S> = Vec::new();
        right.push(silence);
        let r = Delay { left, right, silence };
        assert(r@.lines =~= seq![seq![silence], seq![silence]]);
        r
    }

    /// Makes both lines `delay` samples long: the newest samples are cut, or
    /// silence is added after the newest.
    pub fn set_delay(&mut self, delay: u32)
        requires
            old(self)@.valid(),
        ensures
            final(self)@.lines == seq![
                resized(old(self)@.lines[0], delay as nat, old(self)@.silence),
                resized(old(self)@.lines[1], delay as nat, old(self)@.silence),
            ],
            final(self)@.silence == old(self)@.silence,
            final(self)@.valid(),
            final(self)@.latency() == delay,
    {
        resize_line(&mut self.left, delay, self.silence);
        resize_line(&mut self.right, delay, self.silence);
    }

    /// Fills both lines with silence.
    pub fn reset(&mut self)
        requires
            old(self)@.valid(),
        ensures
            final(self)@.lines == seq![
                silent(old(self)@.latency(), old(self)@.silence),
                silent(old(self)@.latency(), old(self)@.silence),
            ],
            final(self)@.silence == old(self)@.silence,
            final(self)@.valid(),
    {
        silence_line(&mut self.left, self.silence);
        silence_line(&mut self.right, self.silence);
    }

    /// Puts `input` into line `audio_id` and hands out the oldest sample of
    /// that line (`input` itself when the delay is zero).
    pub fn process(&mut self, input: S, audio_id: usize) -> (r: S)
        requires
            old(self)@.valid(),
            audio_id < 2,
        ensures
            r == old(self)@.lines[audio_id as int].push(input)[0],
            final(self)@ == old(self)@.pushed(audio_id as int, input),
            final(self)@.valid(),
    {
        let ghost before = self@;
        let r = if audio_id == 0 {
            shift_line(&mut self.left, input)
        } else {
            shift_line(&mut self.right, input)
        };
        assert(self@.lines =~= before.pushed(audio_id as int, input).lines);
        r
    }

    /// The delay in samples.
    pub fn get_latency(&self) -> (r: u32)
        requires
            self@.valid(),
        ensures
            r == self@.latency(),
    {
        self.left.len() as u32
    }
}

/// A delay line of `n` samples hands out what it holds, then each input
/// `n` calls after it entered.
pub proof fn delay_hands_out_in_order<S>(m: DelayModel<S>, channel: int, xs: Seq<S>)
    requires
        m.valid(),
        0 <= channel < 2,
    ensures
        m.outputs(channel, xs) == (m.lines[channel] + xs).take(xs.len() as int),
    decreases xs.len(),
{
    if xs.len() > 0 {
        let next = m.pushed(channel, xs[0]);
        delay_hands_out_in_order(next, channel, xs.skip(1));
        assert(next.lines[channel] + xs.skip(1) =~= (m.lines[channel] + xs).skip(1));
        assert(m.outputs(channel, xs) =~= (m.lines[channel] + xs).take(xs.len() as int));
    } else {
        assert(m.outputs(channel, xs) =~= (m.lines[channel] + xs).take(xs.len() as int));
    }
}

/// The latency to compensate for a set of voices: that of the first voice.
pub fn latency_average(ap: &Vec<u32>) -> (r: u32)
    requires
        ap.len() > 0,
    ensures
        r == ap[0],
{
    ap[0]
}

/// The latency of a stereo pair of pitch shifters: the mean of the two,
/// rounded down.
pub fn stereo_latency(first: u32, second: u32) -> (r: u32)
    ensures
        r == (first + second) / 2,
{
    ((first as u64 + second as u64) / 2) as u32
}

} // verus!
