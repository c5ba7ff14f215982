use vstd::prelude::*;

verus! {

/// Declares embedded-hal's I2C error kind so that [`Error`] can carry it.
#[verifier::external_type_specification]
#[verifier::external_body]
pub struct ExI2cErrorKind(embedded_hal::i2c::ErrorKind);

/// Declares embedded-hal's digital-pin error kind so that [`Error`] can carry it.
#[verifier::external_type_specification]
#[verifier::external_body]
pub struct ExDigitalErrorKind(embedded_hal::digital::ErrorKind);

/// Errors reported by the driver and by the waveform-memory builders.
#[derive(Debug, Clone, Copy, PartialEq, Eq)]
pub enum Error {
    /// The I2C bus reported an error.
    I2c(embedded_hal::i2c::ErrorKind),
    /// A GPIO pin reported an error.
    Gpio(embedded_hal::digital::ErrorKind),
    /// The chip revision read from the device does not match the selected variant.
    VariantMismatch,
    /// A configuration value is out of range.
    InvalidValue,
    /// The operation needs a configuration that has not been set yet.
    NotConfigured,
    /// The device is not in the operation or driving mode this operation needs.
    WrongMode,
    /// A waveform point's timebase count is outside `1..=8`.
    InvalidTimebase,
    /// A waveform point's amplitude is above 15.
    InvalidAmplitude,
    /// A frame refers to a snippet id outside `1..=15`.
    InvalidSnippetId,
    /// A frame's loop count is above 15.
    InvalidLoopCount,
    /// A frame's frequency override is above 511 Hz.
    InvalidFrequency,
    /// A snippet already holds 16 points, or a memory already holds 15 snippets.
    TooManySnippets,
    /// A sequence already holds 32 frames, or a memory already holds 16 sequences.
    TooManySequences,
    /// The bytes would not fit in the sequence or waveform-memory budget.
    WaveformMemoryFull,
    /// A snippet with no points, or a memory with no snippets.
    EmptySnippet,
    /// A sequence with no frames, or a memory with no sequences.
    EmptySequence,
}

} // verus!
