//! Building blocks of a phase-vocoder pitch shifter and of the
//! key-remapping voices around it.
//!
//! - `layout`: the frame geometry that a window duration, a sample rate and
//!   an over-sampling factor determine, and the latency that follows.
//! - `framing`: the input frame, the output fifo and the overlap-add
//!   accumulator, for samples of any `Copy` type.
//! - `phase`: the rounding rule of the phase unwrap.
//! - `remap`: how analysed bins land on the bins of the shifted spectrum.
//! - `delay`: a stereo delay line that keeps a dry signal aligned.
//! - `notes`: the note tables that map each note onto the nearest scale note.
//! - `updates`: the order in which raised parameter flags are applied.
//! - `voice`: the per-voice decisions of the key-remapping effect.

pub mod delay;
pub mod framing;
pub mod layout;
pub mod notes;
pub mod phase;
pub mod remap;
pub mod updates;
pub mod voice;
