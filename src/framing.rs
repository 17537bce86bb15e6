//! The sample choreography around the spectral stages: the input frame that
//! gathers samples, the output fifo that hands them back one hop later, and
//! the overlap-add accumulator between them. Samples are of any `Copy` type;
//! the arithmetic on them happens in the spectral stages.

use vstd::prelude::*;
use crate::layout::{ConfigError, FrameLayout, LayoutModel, accepts, geometry, latency_is_frame_less_hop};

verus! {

/// What a `FrameFifo` holds.
pub struct FifoModel<S> {
    /// The frame geometry.
    pub layout: LayoutModel,
    /// The input frame; its first `cursor` samples are the ones gathered so far.
    pub input: Seq<S>,
    /// The output fifo; the samples from `cursor - fifo_latency` to `step` are
    /// still to be handed out.
    pub output: Seq<S>,
    /// The overlap-add accumulator.
    pub accumulator: Seq<S>,
    /// Write position in the input frame.
    pub cursor: nat,
    /// The sample value that stands for silence.
    pub silence: S,
}

/// `n` samples of silence.
pub open spec fn silent<S>(n: nat, silence: S) -> Seq<S> {
    Seq::new(n, |i: int| silence)
}

impl<S> FifoModel<S> {
    /// Buffers of one frame each, and a cursor between the latency and the frame end.
    pub open spec fn valid(self) -> bool {
        &&& self.layout.valid()
        &&& self.input.len() == self.layout.frame_size
        &&& self.output.len() == self.layout.frame_size
        &&& self.accumulator.len() == self.layout.frame_size
        &&& self.layout.fifo_latency <= self.cursor <= self.layout.frame_size
    }

    /// A whole frame has been gathered: the spectral stages run before the next sample.
    pub open spec fn frame_complete(self) -> bool {
        self.cursor == self.layout.frame_size
    }

    /// The samples gathered for the coming frame, oldest first.
    pub open spec fn gathered(self) -> Seq<S> {
        self.input.take(self.cursor as int)
    }

    /// The sample that the next push hands out.
    pub open spec fn next_output(self) -> S {
        self.output[self.cursor - self.layout.fifo_latency]
    }

    /// The state after `x` is pushed.
    pub open spec fn pushed(self, x: S) -> FifoModel<S> {
        FifoModel { input: self.input.update(self.cursor as int, x), cursor: self.cursor + 1, ..self }
    }

    /// The state after a completed frame has been analysed: the first hop of
    /// the accumulator moves to the output fifo, the accumulator and the input
    /// frame move left by one hop, and the cursor returns to the latency.
    pub open spec fn hopped(self) -> FifoModel<S> {
        let step = self.layout.step as int;
        let size = self.layout.frame_size as int;
        let latency = self.layout.fifo_latency as int;
        FifoModel {
            output: self.accumulator.take(step) + self.output.skip(step),
            accumulator: self.accumulator.skip(step) + silent(step as nat, self.silence),
            input: self.input.subrange(step, size) + self.input.skip(latency),
            cursor: latency as nat,
            ..self
        }
    }

    /// The state after a reset: silence in the output fifo, cursor at the latency.
    pub open spec fn cleared(self) -> FifoModel<S> {
        FifoModel {
            output: silent(self.layout.frame_size, self.silence),
            cursor: self.layout.fifo_latency,
            ..self
        }
    }

    /// The samples handed out by pushing `xs`, one after the other.
    pub open spec fn outputs(self, xs: Seq<S>) -> Seq<S>
        decreases xs.len(),
    {
        if xs.len() == 0 {
            Seq::empty()
        } else {
            seq![self.next_output()] + self.pushed(xs[0]).outputs(xs.skip(1))
        }
    }

    /// The state after pushing `xs`, one after the other.
    pub open spec fn after_pushes(self, xs: Seq<S>) -> FifoModel<S>
        decreases xs.len(),
    {
        if xs.len() == 0 {
            self
        } else {
            self.pushed(xs[0]).after_pushes(xs.skip(1))
        }
    }
}

/// Pushing samples that fit before the frame end appends them to the
/// gathered samples and hands out the next stretch of the output fifo.
proof fn lemma_pushes<S>(m: FifoModel<S>, xs: Seq<S>)
    requires
        m.valid(),
        m.cursor + xs.len() <= m.layout.frame_size,
    ensures
        m.after_pushes(xs).valid(),
        m.after_pushes(xs).cursor == m.cursor + xs.len(),
        m.after_pushes(xs).gathered() == m.gathered() + xs,
        m.after_pushes(xs).layout == m.layout,
        m.after_pushes(xs).output == m.output,
        m.after_pushes(xs).accumulator == m.accumulator,
        m.outputs(xs) == m.output.subrange(
            m.cursor - m.layout.fifo_latency,
            m.cursor - m.layout.fifo_latency + xs.len(),
        ),
    decreases xs.len(),
{
    if xs.len() == 0 {
        assert(m.gathered() + xs =~= m.gathered());
        assert(m.outputs(xs) =~= m.output.subrange(
            m.cursor - m.layout.fifo_latency,
            m.cursor - m.layout.fifo_latency,
        ));
    } else {
        let next = m.pushed(xs[0]);
        lemma_pushes(next, xs.skip(1));
        assert(next.gathered() =~= m.gathered().push(xs[0]));
        assert(m.gathered() + xs =~= next.gathered() + xs.skip(1));
        let start = m.cursor - m.layout.fifo_latency;
        assert(m.outputs(xs) =~= m.output.subrange(start, start + xs.len()));
    }
}

/// A fresh fifo's first frame is `fifo_latency` samples of silence followed
/// by the first hop of samples pushed; those first pushes hand out silence.
pub proof fn first_frame_is_padded_with_silence<S>(layout: LayoutModel, silence: S, xs: Seq<S>)
    requires
        layout.valid(),
        xs.len() == layout.step,
    ensures
        ({
            let m = FifoModel {
                layout,
                input: silent(layout.frame_size, silence),
                output: silent(layout.frame_size, silence),
                accumulator: silent(layout.frame_size, silence),
                cursor: layout.fifo_latency,
                silence,
            };
            &&& m.after_pushes(xs).frame_complete()
            &&& m.after_pushes(xs).gathered() == silent(layout.fifo_latency, silence) + xs
            &&& m.outputs(xs) == silent(layout.step, silence)
        }),
{
    let m = FifoModel {
        layout,
        input: silent(layout.frame_size, silence),
        output: silent(layout.frame_size, silence),
        accumulator: silent(layout.frame_size, silence),
        cursor: layout.fifo_latency,
        silence,
    };
    latency_is_frame_less_hop(layout);
    lemma_pushes(m, xs);
    assert(m.gathered() =~= silent(layout.fifo_latency, silence));
    assert(m.outputs(xs) =~= silent(layout.step, silence));
}

/// Frames slide by one hop: once a frame has been analysed, the next frame
/// is this frame without its oldest hop, followed by the hop of samples
/// pushed since.
pub proof fn frames_slide_by_one_hop<S>(m: FifoModel<S>, xs: Seq<S>)
    requires
        m.valid(),
        m.frame_complete(),
        xs.len() == m.layout.step,
    ensures
        m.hopped().after_pushes(xs).frame_complete(),
        m.hopped().after_pushes(xs).gathered() == m.gathered().skip(m.layout.step as int) + xs,
{
    let h = m.hopped();
    latency_is_frame_less_hop(m.layout);
    assert(h.valid());
    lemma_pushes(h, xs);
    assert(h.gathered() =~= m.gathered().skip(m.layout.step as int));
}

/// After a frame has been analysed, the next pushes (up to one hop) hand
/// out the start of the accumulator, in order.
pub proof fn hop_emits_accumulator<S>(m: FifoModel<S>, xs: Seq<S>)
    requires
        m.valid(),
        m.frame_complete(),
        xs.len() <= m.layout.step,
    ensures
        m.hopped().outputs(xs) == m.accumulator.take(xs.len() as int),
{
    let h = m.hopped();
    latency_is_frame_less_hop(m.layout);
    assert(h.valid());
    lemma_pushes(h, xs);
    assert(h.outputs(xs) =~= m.accumulator.take(xs.len() as int));
}

/// After a reset, the next pushes (up to one hop) hand out silence, whatever
/// the accumulator and the input frame still hold. Where the latency is at
/// most one hop this covers the first `fifo_latency` pushes.
pub proof fn reset_emits_silence<S>(m: FifoModel<S>, xs: Seq<S>)
    requires
        m.valid(),
        xs.len() <= m.layout.step,
    ensures
        m.cleared().outputs(xs) == silent(xs.len(), m.silence),
{
    let c = m.cleared();
    latency_is_frame_less_hop(m.layout);
    assert(c.valid());
    lemma_pushes(c, xs);
    assert(c.outputs(xs) =~= silent(xs.len(), m.silence));
}

/// Input frame, output fifo and overlap-add accumulator of one channel.
pub struct FrameFifo<S> {
    layout: FrameLayout,
    in_fifo: Vec<S>,
    out_fifo: Vec<S>,
    accumulator: Vec<S>,
    overlap: u32,
    silence: S,
}

impl<S> View for FrameFifo<S> {
    type V = FifoModel<S>;

    closed spec fn view(&self) -> FifoModel<S> {
        FifoModel {
            layout: self.layout@,
            input: self.in_fifo@,
            output: self.out_fifo@,
            accumulator: self.accumulator@,
            cursor: self.overlap as nat,
            silence: self.silence,
        }
    }
}

/// A vector of `n` copies of `value`.
fn filled<S: Copy>(n: u32, value: S) -> (r: Vec<S>)
    ensures
        r@ == silent(n as nat, value),
{
    let mut v: Vec<S> = Vec::new();
    let mut i: u32 = 0;
    while i < n
        invariant
            i <= n,
            v@ == silent(i as nat, value),
        decreases n - i,
    {
        v.push(value);
        i = i + 1;
        assert(v@ =~= silent(i as nat, value));
    }
    v
}

impl<S: Copy> FrameFifo<S> {
    /// A fifo of the given geometry, all buffers silent, the cursor at the latency.
    pub fn new(layout: FrameLayout, silence: S) -> (r: FrameFifo<S>)
        ensures
            r@ == (FifoModel {
                layout: layout@,
                input: silent(layout@.frame_size, silence),
                output: silent(layout@.frame_size, silence),
                accumulator: silent(layout@.frame_size, silence),
                cursor: layout@.fifo_latency,
                silence,
            }),
            r@.valid(),
    {
        proof {
            use_type_invariant(&layout);
            latency_is_frame_less_hop(layout@);
        }
        let size = layout.frame_size();
        let latency = layout.get_latency();
        FrameFifo {
            layout,
            in_fifo: filled(size, silence),
            out_fifo: filled(size, silence),
            accumulator: filled(size, silence),
            overlap: latency,
            silence,
        }
    }

    /// The frame geometry.
    pub fn layout(&self) -> (r: FrameLayout)
        ensures
            r@ == self@.layout,
    {
        self.layout
    }

    /// Latency in samples: `frame_size - frame_size / over_sampling`.
    pub fn get_latency(&self) -> (r: u32)
        ensures
            r == self@.layout.fifo_latency,
    {
        self.layout.get_latency()
    }

    /// Whether a whole frame has been gathered and waits for analysis.
    pub fn frame_complete(&self) -> (r: bool)
        requires
            self@.valid(),
        ensures
            r == self@.frame_complete(),
    {
        self.overlap == self.layout.frame_size()
    }

    /// The input frame: once a frame is complete, the last `frame_size` samples.
    pub fn frame(&self) -> (r: &Vec<S>)
        ensures
            r@ == self@.input,
    {
        &self.in_fifo
    }

    /// Stores `sample` in the input frame and hands out the sample that has
    /// waited in the output fifo for the latency.
    pub fn push(&mut self, sample: S) -> (r: S)
        requires
            old(self)@.valid(),
            !old(self)@.frame_complete(),
        ensures
            r == old(self)@.next_output(),
            final(self)@ == old(self)@.pushed(sample),
            final(self)@.valid(),
    {
        let at = self.overlap as usize;
        self.in_fifo.set(at, sample);
        let out = self.out_fifo[(self.overlap - self.layout.get_latency()) as usize];
        self.overlap = self.overlap + 1;
        out
    }

    /// The value at position `k` of the overlap-add accumulator.
    pub fn accumulated(&self, k: usize) -> (r: S)
        requires
            self@.valid(),
            k < self@.layout.frame_size,
        ensures
            r == self@.accumulator[k as int],
    {
        self.accumulator[k]
    }

    /// Replaces the value at position `k` of the overlap-add accumulator.
    pub fn set_accumulated(&mut self, k: usize, value: S)
        requires
            old(self)@.valid(),
            k < old(self)@.layout.frame_size,
        ensures
            final(self)@ == (FifoModel {
                accumulator: old(self)@.accumulator.update(k as int, value),
                ..old(self)@
            }),
            final(self)@.valid(),
    {
        self.accumulator.set(k, value);
    }

    /// Runs after the spectral stages have added a completed frame into the
    /// accumulator: the first hop of the accumulator becomes the output fifo's
    /// next hop, the accumulator and the input frame move left by one hop
    /// (the accumulator's vacated end becomes silence), and the cursor returns
    /// to the latency.
    pub fn finish_hop(&mut self)
        requires
            old(self)@.valid(),
            old(self)@.frame_complete(),
        ensures
            final(self)@ == old(self)@.hopped(),
            final(self)@.valid(),
    {
        let ghost before = self@;
        proof {
            latency_is_frame_less_hop(before.layout);
        }
        let step = self.layout.step() as usize;
        let size = self.layout.frame_size() as usize;
        let latency = self.layout.get_latency() as usize;
        let mut k: usize = 0;
        while k < step
            invariant
                before.valid(),
                step == before.layout.step,
                size == before.layout.frame_size,
                k <= step,
                self@ == (FifoModel { output: self.out_fifo@, ..before }),
                self.out_fifo@.len() == size,
                forall|i: int| 0 <= i < k ==> self.out_fifo@[i] == before.accumulator[i],
                forall|i: int| k <= i < size ==> self.out_fifo@[i] == before.output[i],
            decreases step - k,
        {
            let v = self.accumulator[k];
            self.out_fifo.set(k, v);
            k = k + 1;
        }
        let ghost emitted = self.out_fifo@;
        assert(emitted =~= before.accumulator.take(step as int) + before.output.skip(step as int));
        k = 0;
        while k < latency
            invariant
                before.valid(),
                step == before.layout.step,
                size == before.layout.frame_size,
                latency == before.layout.fifo_latency,
                latency + step == size,
                k <= latency,
                self@ == (FifoModel { output: emitted, accumulator: self.accumulator@, ..before }),
                self.accumulator@.len() == size,
                forall|i: int| 0 <= i < k ==> self.accumulator@[i] == before.accumulator[i + step],
                forall|i: int| k <= i < size ==> self.accumulator@[i] == before.accumulator[i],
            decreases latency - k,
        {
            let v = self.accumulator[k + step];
            self.accumulator.set(k, v);
            k = k + 1;
        }
        while k < size
            invariant
                before.valid(),
                step == before.layout.step,
                size == before.layout.frame_size,
                latency == before.layout.fifo_latency,
                latency + step == size,
                latency <= k <= size,
                self@ == (FifoModel { output: emitted, accumulator: self.accumulator@, ..before }),
                self.accumulator@.len() == size,
                forall|i: int| 0 <= i < latency ==> self.accumulator@[i] == before.accumulator[i + step],
                forall|i: int| latency <= i < k ==> self.accumulator@[i] == before.silence,
            decreases size - k,
        {
            self.accumulator.set(k, self.silence);
            k = k + 1;
        }
        let ghost moved = self.accumulator@;
        assert(moved =~= before.accumulator.skip(step as int) + silent(step as nat, before.silence));
        k = 0;
        while k < latency
            invariant
                before.valid(),
                step == before.layout.step,
                size == before.layout.frame_size,
                latency == before.layout.fifo_latency,
                latency + step == size,
                k <= latency,
                self@ == (FifoModel { output: emitted, accumulator: moved, input: self.in_fifo@, ..before }),
                self.in_fifo@.len() == size,
                forall|i: int| 0 <= i < k ==> self.in_fifo@[i] == before.input[i + step],
                forall|i: int| k <= i < size ==> self.in_fifo@[i] == before.input[i],
            decreases latency - k,
        {
            let v = self.in_fifo[k + step];
            self.in_fifo.set(k, v);
            k = k + 1;
        }
        assert(self.in_fifo@ =~= before.input.subrange(step as int, size as int) + before.input.skip(
            latency as int,
        ));
        self.overlap = latency as u32;
    }

    /// Silences the output fifo and returns the cursor to the latency; the
    /// input frame and the accumulator keep what they hold.
    pub fn reset(&mut self)
        requires
            old(self)@.valid(),
        ensures
            final(self)@ == old(self)@.cleared(),
            final(self)@.valid(),
    {
        let ghost before = self@;
        let size = self.layout.frame_size() as usize;
        let mut k: usize = 0;
        while k < size
            invariant
                before.valid(),
                size == before.layout.frame_size,
                k <= size,
                self@ == (FifoModel { output: self.out_fifo@, ..before }),
                self.out_fifo@.len() == size,
                forall|i: int| 0 <= i < k ==> self.out_fifo@[i] == before.silence,
            decreases size - k,
        {
            self.out_fifo.set(k, self.silence);
            k = k + 1;
        }
        assert(self.out_fifo@ =~= silent(size as nat, before.silence));
        self.overlap = self.layout.get_latency();
    }

    /// Analyses each sample `over_sampling` times from now on: the hop, the
    /// latency and the cursor follow the new factor; the buffers keep what
    /// they hold. Refused, with nothing changed, when the factor is zero or
    /// leaves an empty hop.
    pub fn set_over_sampling(&mut self, over_sampling: u8) -> (r: Result<(), ConfigError>)
        requires
            old(self)@.valid(),
        ensures
            r is Ok <==> accepts(old(self)@.layout.frame_size, over_sampling as nat),
            r is Ok ==> final(self)@ == (FifoModel {
                layout: geometry(old(self)@.layout.frame_size, over_sampling as nat),
                cursor: geometry(old(self)@.layout.frame_size, over_sampling as nat).fifo_latency,
                ..old(self)@
            }),
            r matches Err(e) ==> final(self)@ == old(self)@ && e == ConfigError::InvalidConfiguration,
            final(self)@.valid(),
    {
        match self.layout.with_over_sampling(over_sampling) {
            Ok(layout) => {
                proof {
                    latency_is_frame_less_hop(layout@);
                }
                self.layout = layout;
                self.overlap = layout.get_latency();
                Ok(())
            },
            Err(e) => Err(e),
        }
    }
}

} // verus!
