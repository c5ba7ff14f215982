//! Frames: references to a snippet with playback modifiers, packed into 1 to 3 bytes.

use vstd::prelude::*;
use vstd::slice::slice_subrange;

use crate::errors::Error;

verus! {

/// Maximum number of bytes of one frame.
pub const MAX_FRAME_BYTES: usize = 3;

/// Gain applied when a frame plays its snippet.
#[derive(Debug, Clone, Copy, PartialEq, Eq)]
pub enum Gain {
    /// 0 dB (the default).
    Full,
    /// -6 dB.
    Half,
    /// -12 dB.
    Quarter,
    /// -18 dB.
    Eighth,
}

/// The two-bit GAIN field of each gain level.
pub open spec fn gain_bits(g: Gain) -> u8 {
    match g {
        Gain::Full => 0,
        Gain::Half => 1,
        Gain::Quarter => 2,
        Gain::Eighth => 3,
    }
}

impl Gain {
    /// The value of the GAIN field for this level.
    pub fn bits(&self) -> (r: u8)
        ensures
            r == gain_bits(*self),
    {
        match self {
            Gain::Full => 0,
            Gain::Half => 1,
            Gain::Quarter => 2,
            Gain::Eighth => 3,
        }
    }
}

impl Default for Gain {
    fn default() -> (r: Self)
        ensures
            r == Gain::Full,
    {
        Gain::Full
    }
}

/// Timebase that scales the duration of each point of the played snippet.
///
/// The durations assume the device's default waveform timebase setting.
#[derive(Debug, Clone, Copy, PartialEq, Eq)]
pub enum Timebase {
    /// 5.44 ms (the default).
    Ms5_44,
    /// 21.76 ms.
    Ms21_76,
    /// 43.52 ms.
    Ms43_52,
    /// 87.04 ms.
    Ms87_04,
}

/// The two-bit TIMEBASE field of each timebase.
pub open spec fn timebase_bits(t: Timebase) -> u8 {
    match t {
        Timebase::Ms5_44 => 0,
        Timebase::Ms21_76 => 1,
        Timebase::Ms43_52 => 2,
        Timebase::Ms87_04 => 3,
    }
}

impl Timebase {
    /// The value of the TIMEBASE field for this timebase.
    pub fn bits(&self) -> (r: u8)
        ensures
            r == timebase_bits(*self),
    {
        match self {
            Timebase::Ms5_44 => 0,
            Timebase::Ms21_76 => 1,
            Timebase::Ms43_52 => 2,
            Timebase::Ms87_04 => 3,
        }
    }
}

impl Default for Timebase {
    fn default() -> (r: Self)
        ensures
            r == Timebase::Ms5_44,
    {
        Timebase::Ms5_44
    }
}

/// First byte of a frame: `0 | GAIN[6:5] | TIMEBASE[4:3] | ID[2:0]`.
pub open spec fn frame_byte1(snippet_id: u8, gain: Gain, timebase: Timebase) -> u8 {
    (gain_bits(gain) << 5u8) | (timebase_bits(timebase) << 3u8) | (snippet_id & 0x07u8)
}

/// Second byte of a frame: `1 | LOOP[6:3] | FREQ_PRESENT[2] | FREQ[8] | ID[3]`.
pub open spec fn frame_byte2(snippet_id: u8, loop_count: Option<u8>, frequency: Option<u16>) -> u8 {
    let loop_val: u8 = match loop_count {
        Some(n) => n,
        None => 0,
    };
    let freq_cmd: u8 = if frequency is Some { 1 } else { 0 };
    let freq_high: u8 = match frequency {
        Some(f) => ((f >> 8u16) & 0x01u16) as u8,
        None => 0,
    };
    0x80u8 | (loop_val << 3u8) | (freq_cmd << 2u8) | (freq_high << 1u8) | ((snippet_id >> 3u8)
        & 0x01u8)
}

/// Third byte of a frame: the low eight bits of the frequency override.
pub open spec fn frame_byte3(frequency: u16) -> u8 {
    (frequency & 0xFFu16) as u8
}

/// The bytes of a frame. A second byte is present iff the id is 8 or more,
/// a loop count is set, or a frequency is set; a third iff a frequency is set.
pub open spec fn frame_encoding(
    snippet_id: u8,
    gain: Gain,
    timebase: Timebase,
    loop_count: Option<u8>,
    frequency: Option<u16>,
) -> Seq<u8> {
    let b1 = frame_byte1(snippet_id, gain, timebase);
    let b2: u8 = frame_byte2(snippet_id, loop_count, frequency);
    match frequency {
        Some(f) => seq![b1, b2, frame_byte3(f)],
        None => if snippet_id >= 8 || loop_count is Some {
            seq![b1, b2]
        } else {
            seq![b1]
        },
    }
}

/// The length of a frame is 1 iff the id is below 8 and neither a loop count
/// nor a frequency is set, 2 iff no frequency is set but the id is 8 or more
/// or a loop count is set, and 3 iff a frequency is set. The first byte has
/// its top bit clear and a second byte has it set, so frame boundaries can be
/// found without length fields.
pub proof fn lemma_frame_length(
    snippet_id: u8,
    gain: Gain,
    timebase: Timebase,
    loop_count: Option<u8>,
    frequency: Option<u16>,
)
    ensures
        (frame_encoding(snippet_id, gain, timebase, loop_count, frequency).len() == 1) <==> (
        snippet_id < 8 && loop_count is None && frequency is None),
        (frame_encoding(snippet_id, gain, timebase, loop_count, frequency).len() == 2) <==> (
        frequency is None && (snippet_id >= 8 || loop_count is Some)),
        (frame_encoding(snippet_id, gain, timebase, loop_count, frequency).len() == 3) <==> (
        frequency is Some),
        frame_encoding(snippet_id, gain, timebase, loop_count, frequency)[0] < 0x80,
        frame_encoding(snippet_id, gain, timebase, loop_count, frequency).len() >= 2
            ==> frame_encoding(snippet_id, gain, timebase, loop_count, frequency)[1] >= 0x80,
{
    let g: u8 = gain_bits(gain);
    let t: u8 = timebase_bits(timebase);
    assert(((g << 5u8) | (t << 3u8) | (snippet_id & 0x07u8)) < 0x80u8) by (bit_vector)
        requires
            g <= 3,
            t <= 3,
    ;
    let b2: u8 = frame_byte2(snippet_id, loop_count, frequency);
    assert(b2 >= 0x80) by {
        let loop_val: u8 = match loop_count {
            Some(n) => n,
            None => 0,
        };
        let freq_cmd: u8 = if frequency is Some { 1 } else { 0 };
        let freq_high: u8 = match frequency {
            Some(f) => ((f >> 8u16) & 0x01u16) as u8,
            None => 0,
        };
        assert((0x80u8 | (loop_val << 3u8) | (freq_cmd << 2u8) | (freq_high << 1u8) | ((snippet_id
            >> 3u8) & 0x01u8)) >= 0x80u8) by (bit_vector);
    }
}

/// One frame of a sequence, as its 1 to 3 encoded bytes.
#[derive(Debug, Clone, Copy)]
pub struct Frame {
    bytes: [u8; MAX_FRAME_BYTES],
    len: u8,
}

impl View for Frame {
    type V = Seq<u8>;

    closed spec fn view(&self) -> Seq<u8> {
        Seq::new(self.len as nat, |i: int| self.bytes@[i])
    }
}

impl Frame {
    /// A frame has 1 to 3 bytes.
    pub open spec fn wf(&self) -> bool {
        1 <= self@.len() <= MAX_FRAME_BYTES
    }

    /// The number of bytes of this frame.
    pub fn byte_len(&self) -> (r: usize)
        requires
            self.wf(),
        ensures
            r == self@.len(),
    {
        self.len as usize
    }

    /// The encoded bytes of this frame.
    pub fn as_bytes(&self) -> (r: &[u8])
        requires
            self.wf(),
        ensures
            r@ == self@,
    {
        let r = slice_subrange(self.bytes.as_slice(), 0, self.len as usize);
        assert(r@ =~= self@);
        r
    }

    /// Writes the frame's bytes to the front of `buffer`, as many as fit,
    /// and returns how many were written.
    pub fn encode_into(&self, buffer: &mut [u8]) -> (r: usize)
        requires
            self.wf(),
        ensures
            r == if self@.len() < old(buffer)@.len() {
                self@.len()
            } else {
                old(buffer)@.len() as nat
            },
            final(buffer)@.len() == old(buffer)@.len(),
            forall|i: int|
                0 <= i < old(buffer)@.len() ==> #[trigger] final(buffer)@[i] == if i < self@.len() {
                    self@[i]
                } else {
                    old(buffer)@[i]
                },
    {
        let len: usize = if (self.len as usize) < buffer.len() {
            self.len as usize
        } else {
            buffer.len()
        };
        let mut i: usize = 0;
        while i < len
            invariant
                len <= buffer@.len(),
                len <= self@.len(),
                len == self@.len() || len == buffer@.len(),
                self.wf(),
                0 <= i <= len,
                buffer@.len() == old(buffer)@.len(),
                forall|j: int|
                    0 <= j < old(buffer)@.len() ==> #[trigger] buffer@[j] == if j < i {
                        self@[j]
                    } else {
                        old(buffer)@[j]
                    },
            decreases len - i,
        {
            buffer[i] = self.bytes[i];
            i += 1;
        }
        len
    }
}

/// Collects a frame's snippet id and modifiers; [`FrameBuilder::build`] encodes them.
#[derive(Debug, Clone, Copy)]
pub struct FrameBuilder {
    snippet_id: u8,
    gain: Gain,
    timebase: Timebase,
    loop_count: Option<u8>,
    frequency: Option<u16>,
}

impl FrameBuilder {
    /// The snippet id the frame refers to.
    pub closed spec fn spec_snippet_id(&self) -> u8 {
        self.snippet_id
    }

    /// The gain the frame plays with.
    pub closed spec fn spec_gain(&self) -> Gain {
        self.gain
    }

    /// The timebase the frame plays with.
    pub closed spec fn spec_timebase(&self) -> Timebase {
        self.timebase
    }

    /// The loop count, if one was set.
    pub closed spec fn spec_loop_count(&self) -> Option<u8> {
        self.loop_count
    }

    /// The frequency override in Hz, if one was set.
    pub closed spec fn spec_frequency(&self) -> Option<u16> {
        self.frequency
    }

    /// Id at most 15, loop count at most 15, frequency at most 511.
    pub open spec fn wf(&self) -> bool {
        &&& self.spec_snippet_id() <= 15
        &&& self.spec_loop_count() matches Some(n) ==> n <= 15
        &&& self.spec_frequency() matches Some(f) ==> f <= 511
    }

    /// The bytes this builder's frame encodes to.
    pub open spec fn spec_encoding(&self) -> Seq<u8> {
        frame_encoding(
            self.spec_snippet_id(),
            self.spec_gain(),
            self.spec_timebase(),
            self.spec_loop_count(),
            self.spec_frequency(),
        )
    }

    /// A frame that plays snippet `snippet_id` (1..=15) with full gain, the
    /// shortest timebase, no loop and no frequency override.
    pub fn new(snippet_id: u8) -> (r: Result<Self, Error>)
        ensures
            (snippet_id == 0 || snippet_id > 15) ==> r == Err::<Self, Error>(
                Error::InvalidSnippetId,
            ),
            1 <= snippet_id <= 15 ==> (r matches Ok(b) && b.wf() && b.spec_snippet_id()
                == snippet_id && b.spec_gain() == Gain::Full && b.spec_timebase()
                == Timebase::Ms5_44 && b.spec_loop_count() is None && b.spec_frequency() is None),
    {
        if snippet_id == 0 || snippet_id > 15 {
            return Err(Error::InvalidSnippetId);
        }
        Ok(FrameBuilder {
            snippet_id,
            gain: Gain::default(),
            timebase: Timebase::default(),
            loop_count: None,
            frequency: None,
        })
    }

    /// A frame that plays the built-in silence shape (id 0), which lasts two timebases.
    pub fn silence() -> (r: Self)
        ensures
            r.wf(),
            r.spec_snippet_id() == 0,
            r.spec_gain() == Gain::Full,
            r.spec_timebase() == Timebase::Ms5_44,
            r.spec_loop_count() is None,
            r.spec_frequency() is None,
    {
        FrameBuilder {
            snippet_id: 0,
            gain: Gain::default(),
            timebase: Timebase::default(),
            loop_count: None,
            frequency: None,
        }
    }

    /// Sets the gain.
    pub fn gain(self, gain: Gain) -> (r: Self)
        requires
            self.wf(),
        ensures
            r.wf(),
            r.spec_gain() == gain,
            r.spec_snippet_id() == self.spec_snippet_id(),
            r.spec_timebase() == self.spec_timebase(),
            r.spec_loop_count() == self.spec_loop_count(),
            r.spec_frequency() == self.spec_frequency(),
    {
        FrameBuilder { gain, ..self }
    }

    /// Sets the timebase.
    pub fn timebase(self, timebase: Timebase) -> (r: Self)
        requires
            self.wf(),
        ensures
            r.wf(),
            r.spec_timebase() == timebase,
            r.spec_snippet_id() == self.spec_snippet_id(),
            r.spec_gain() == self.spec_gain(),
            r.spec_loop_count() == self.spec_loop_count(),
            r.spec_frequency() == self.spec_frequency(),
    {
        FrameBuilder { timebase, ..self }
    }

    /// Sets how many extra times the snippet plays (0..=15; 0 plays it once).
    pub fn loop_count(self, count: u8) -> (r: Result<Self, Error>)
        requires
            self.wf(),
        ensures
            count > 15 ==> r == Err::<Self, Error>(Error::InvalidLoopCount),
            count <= 15 ==> (r matches Ok(b) && b.wf() && b.spec_loop_count() == Some(count)
                && b.spec_snippet_id() == self.spec_snippet_id() && b.spec_gain()
                == self.spec_gain() && b.spec_timebase() == self.spec_timebase()
                && b.spec_frequency() == self.spec_frequency()),
    {
        if count > 15 {
            return Err(Error::InvalidLoopCount);
        }
        Ok(FrameBuilder { loop_count: Some(count), ..self })
    }

    /// Sets a frequency override in Hz (0..=511, nine bits).
    pub fn frequency_hz(self, freq_hz: u16) -> (r: Result<Self, Error>)
        requires
            self.wf(),
        ensures
            freq_hz > 511 ==> r == Err::<Self, Error>(Error::InvalidFrequency),
            freq_hz <= 511 ==> (r matches Ok(b) && b.wf() && b.spec_frequency() == Some(freq_hz)
                && b.spec_snippet_id() == self.spec_snippet_id() && b.spec_gain()
                == self.spec_gain() && b.spec_timebase() == self.spec_timebase()
                && b.spec_loop_count() == self.spec_loop_count()),
    {
        if freq_hz > 511 {
            return Err(Error::InvalidFrequency);
        }
        Ok(FrameBuilder { frequency: Some(freq_hz), ..self })
    }

    /// Encodes the frame.
    pub fn build(self) -> (r: Result<Frame, Error>)
        requires
            self.wf(),
        ensures
            r matches Ok(f) && f.wf() && f@ == self.spec_encoding(),
    {
        let mut bytes: [u8; MAX_FRAME_BYTES] = [0u8; MAX_FRAME_BYTES];
        let id: u8 = self.snippet_id;
        let g: u8 = self.gain.bits();
        let t: u8 = self.timebase.bits();
        let byte1: u8 = (g << 5) | (t << 3) | (id & 0x07);
        bytes[0] = byte1;
        let mut len: u8 = 1;

        let snp_id_high: u8 = (id >> 3) & 0x01;
        assert(((id >> 3u8) & 0x01u8 != 0) == (id >= 8)) by (bit_vector)
            requires
                id <= 15,
        ;
        let need_byte2 = snp_id_high != 0 || self.loop_count.is_some()
            || self.frequency.is_some();
        if need_byte2 {
            let loop_val: u8 = match self.loop_count {
                Some(n) => n,
                None => 0,
            };
            let freq_cmd: u8 = if self.frequency.is_some() {
                1
            } else {
                0
            };
            let freq_high: u8 = match self.frequency {
                Some(f) => ((f >> 8) & 0x01) as u8,
                None => 0,
            };
            let byte2: u8 = 0x80 | (loop_val << 3) | (freq_cmd << 2) | (freq_high << 1)
                | snp_id_high;
            bytes[1] = byte2;
            len = 2;
            if let Some(f) = self.frequency {
                bytes[2] = (f & 0xFF) as u8;
                len = 3;
            }
        }
        let frame = Frame { bytes, len };
        assert(frame@ =~= self.spec_encoding());
        Ok(frame)
    }
}

} // verus!
