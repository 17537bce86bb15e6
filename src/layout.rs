//! Frame geometry of the pitch shifter: frame size, hop size, number of
//! spectral bins and the latency that follows from them.

use vstd::prelude::*;

verus! {

/// Why a configuration was refused.
#[derive(Debug, Clone, Copy, PartialEq, Eq, Structural)]
pub enum ConfigError {
    /// The window, the over-sampling factor or the hop that follows from them is empty.
    InvalidConfiguration,
}

/// Number of samples in an analysis frame: `sample_rate * window_ms / 1000`,
/// rounded up to the next even number.
pub open spec fn frame_size_of(window_duration_ms: nat, sample_rate: nat) -> nat {
    let raw = sample_rate * window_duration_ms / 1000;
    raw + raw % 2
}

/// The geometry that a frame size and an over-sampling factor determine.
pub struct LayoutModel {
    /// Samples per analysis frame.
    pub frame_size: nat,
    /// Complex bins of the half spectrum: `frame_size / 2 + 1`.
    pub half_frame_size: nat,
    /// Hop size: `frame_size / over_sampling`.
    pub step: nat,
    /// Samples a value spends in the buffers: `frame_size - step`.
    pub fifo_latency: nat,
    /// Number of overlapping frames each sample takes part in.
    pub over_sampling: nat,
}

/// The geometry of a frame of `frame_size` samples analysed `over_sampling` times.
pub open spec fn geometry(frame_size: nat, over_sampling: nat) -> LayoutModel {
    let step = if over_sampling == 0 { 0 } else { frame_size / over_sampling };
    LayoutModel {
        frame_size,
        half_frame_size: frame_size / 2 + 1,
        step,
        fifo_latency: (frame_size - step) as nat,
        over_sampling,
    }
}

/// Whether a frame of `frame_size` samples can be analysed `over_sampling`
/// times: both are positive and the hop is at least one sample.
pub open spec fn accepts(frame_size: nat, over_sampling: nat) -> bool {
    &&& frame_size > 0
    &&& over_sampling > 0
    &&& frame_size / over_sampling > 0
}

impl LayoutModel {
    /// A usable geometry: positive even frame, positive hop, and a frame
    /// whose double still fits in 32 bits.
    pub open spec fn valid(self) -> bool {
        &&& accepts(self.frame_size, self.over_sampling)
        &&& self.frame_size % 2 == 0
        &&& self.over_sampling <= u8::MAX
        &&& 2 * self.frame_size <= u32::MAX
        &&& self == geometry(self.frame_size, self.over_sampling)
    }
}

/// The frame geometry of a pitch shifter.
#[derive(Clone, Copy)]
pub struct FrameLayout {
    frame_size: u32,
    half_frame_size: u32,
    step: u32,
    fifo_latency: u32,
    over_sampling: u8,
}

impl View for FrameLayout {
    type V = LayoutModel;

    closed spec fn view(&self) -> LayoutModel {
        LayoutModel {
            frame_size: self.frame_size as nat,
            half_frame_size: self.half_frame_size as nat,
            step: self.step as nat,
            fifo_latency: self.fifo_latency as nat,
            over_sampling: self.over_sampling as nat,
        }
    }
}

impl FrameLayout {
    /// Every layout that exists is a valid one.
    #[verifier::type_invariant]
    pub open spec fn inv(self) -> bool {
        self@.valid()
    }

    /// Builds the geometry for a frame of `frame_size` samples (even, and at
    /// most half of `u32::MAX`) analysed `over_sampling` times.
    fn from_frame_size(frame_size: u32, over_sampling: u8) -> (r: Result<FrameLayout, ConfigError>)
        requires
            frame_size % 2 == 0,
            2 * frame_size <= u32::MAX,
        ensures
            r is Ok <==> accepts(frame_size as nat, over_sampling as nat),
            r matches Ok(l) ==> l@ == geometry(frame_size as nat, over_sampling as nat),
            r matches Ok(l) ==> l@.valid(),
    {
        if frame_size == 0 || over_sampling == 0 {
            return Err(ConfigError::InvalidConfiguration);
        }
        let step = frame_size / (over_sampling as u32);
        if step == 0 {
            return Err(ConfigError::InvalidConfiguration);
        }
        Ok(FrameLayout {
            frame_size,
            half_frame_size: frame_size / 2 + 1,
            step,
            fifo_latency: frame_size - step,
            over_sampling,
        })
    }

    /// The geometry for windows of `window_duration_ms` milliseconds at
    /// `sample_rate` Hz, each sample taking part in `over_sampling` frames.
    /// Refused when the frame is empty, the factor is zero or the hop that
    /// follows is empty.
    pub fn new(window_duration_ms: u8, sample_rate: u32, over_sampling: u8) -> (r: Result<
        FrameLayout,
        ConfigError,
    >)
        ensures
            r is Ok <==> accepts(
                frame_size_of(window_duration_ms as nat, sample_rate as nat),
                over_sampling as nat,
            ),
            r matches Ok(l) ==> l@ == geometry(
                frame_size_of(window_duration_ms as nat, sample_rate as nat),
                over_sampling as nat,
            ),
            r matches Ok(l) ==> l@.valid(),
            r matches Err(e) ==> e == ConfigError::InvalidConfiguration,
    {
        let rate: u64 = sample_rate as u64;
        let ms: u64 = window_duration_ms as u64;
        assert(rate * ms <= 4_294_967_295 * 255) by (nonlinear_arith)
            requires
                rate <= 4_294_967_295,
                ms <= 255,
        ;
        let raw: u64 = rate * ms / 1000;
        let frame_size: u32 = (raw + raw % 2) as u32;
        FrameLayout::from_frame_size(frame_size, over_sampling)
    }

    /// The geometry for the same frame analysed `over_sampling` times.
    /// Refused when the factor is zero or leaves an empty hop.
    pub fn with_over_sampling(&self, over_sampling: u8) -> (r: Result<FrameLayout, ConfigError>)
        ensures
            r is Ok <==> accepts(self@.frame_size, over_sampling as nat),
            r matches Ok(l) ==> l@ == geometry(self@.frame_size, over_sampling as nat),
            r matches Ok(l) ==> l@.valid(),
            r matches Err(e) ==> e == ConfigError::InvalidConfiguration,
    {
        proof {
            use_type_invariant(self);
        }
        FrameLayout::from_frame_size(self.frame_size, over_sampling)
    }

    /// Samples per analysis frame.
    pub fn frame_size(&self) -> (r: u32)
        ensures
            r == self@.frame_size,
    {
        self.frame_size
    }

    /// Complex bins of the half spectrum.
    pub fn half_frame_size(&self) -> (r: u32)
        ensures
            r == self@.half_frame_size,
    {
        self.half_frame_size
    }

    /// Hop size in samples.
    pub fn step(&self) -> (r: u32)
        ensures
            r == self@.step,
    {
        self.step
    }

    /// Over-sampling factor.
    pub fn over_sampling(&self) -> (r: u8)
        ensures
            r == self@.over_sampling,
    {
        self.over_sampling
    }

    /// Latency in samples: `frame_size - frame_size / over_sampling`.
    pub fn get_latency(&self) -> (r: u32)
        ensures
            r == self@.fifo_latency,
            r == self@.frame_size - self@.frame_size / self@.over_sampling,
    {
        proof {
            use_type_invariant(self);
        }
        self.fifo_latency
    }
}

/// In every valid geometry the latency is the frame size less one hop, the
/// hop is the frame size divided by the over-sampling factor, and both fit
/// inside one frame.
pub proof fn latency_is_frame_less_hop(layout: LayoutModel)
    requires
        layout.valid(),
    ensures
        layout.fifo_latency == layout.frame_size - layout.frame_size / layout.over_sampling,
        layout.step == layout.frame_size / layout.over_sampling,
        0 < layout.step <= layout.frame_size,
        layout.fifo_latency < layout.frame_size,
{
    assert(layout.frame_size / layout.over_sampling <= layout.frame_size) by (nonlinear_arith)
        requires
            layout.over_sampling > 0,
    ;
}

} // verus!
