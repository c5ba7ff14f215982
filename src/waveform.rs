//! Builders for the waveform memory that the device plays back from.
//!
//! Points make up snippets (waveform shapes); frames refer to snippets and
//! make up sequences; snippets and sequences together compile into one
//! memory image of at most 100 bytes:
//!
//! - byte 0: the number of snippets (1..=15)
//! - byte 1: the number of sequences (1..=16)
//! - then one end pointer per snippet and per sequence, each the absolute
//!   index of the last byte of its chunk, snippets first
//! - then the snippet bytes, then the sequence bytes, in insertion order

pub mod snippet;
pub mod frame;
pub mod sequence;
pub mod memory;

pub use frame::{Frame, FrameBuilder, Gain, Timebase};
pub use memory::{WaveformMemory, WaveformMemoryBuilder};
pub use sequence::{Sequence, SequenceBuilder};
pub use snippet::{PwlPoint, Snippet, SnippetBuilder};
