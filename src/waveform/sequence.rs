//! Sequences: playback programs made of frames.

use vstd::prelude::*;
use vstd::slice::slice_subrange;

use crate::errors::Error;
use crate::waveform::frame::Frame;

verus! {

/// Maximum number of frames in one sequence.
pub const MAX_FRAMES_PER_SEQUENCE: usize = 32;

/// Maximum number of bytes of one sequence.
pub const MAX_SEQUENCE_BYTES: usize = 96;

/// A finished sequence: the bytes of its 1 to 32 frames, in order.
#[derive(Debug, Clone, Copy)]
pub struct Sequence {
    data: [u8; MAX_SEQUENCE_BYTES],
    len: u8,
}

impl View for Sequence {
    type V = Seq<u8>;

    closed spec fn view(&self) -> Seq<u8> {
        Seq::new(self.len as nat, |i: int| self.data@[i])
    }
}

impl Sequence {
    /// A sequence has 1 to 96 bytes.
    pub open spec fn wf(&self) -> bool {
        1 <= self@.len() <= MAX_SEQUENCE_BYTES
    }

    /// The number of bytes this sequence takes in waveform memory.
    pub fn byte_len(&self) -> (r: usize)
        requires
            self.wf(),
        ensures
            r == self@.len(),
    {
        self.len as usize
    }

    /// The encoded bytes of this sequence.
    pub fn as_bytes(&self) -> (r: &[u8])
        requires
            self.wf(),
        ensures
            r@ == self@,
    {
        let r = slice_subrange(self.data.as_slice(), 0, self.len as usize);
        assert(r@ =~= self@);
        r
    }

    /// Writes the sequence's bytes to the front of `buffer`, as many as fit,
    /// and returns how many were written.
    pub fn encode_into(&self, buffer: &mut [u8]) -> (r: usize)
        requires
            self.wf(),
        ensures
            r == if self@.len() < old(buffer)@.len() {
                self@.len()
            } else {
                old(buffer)@.len() as nat
            },
            final(buffer)@.len() == old(buffer)@.len(),
            forall|i: int|
                0 <= i < old(buffer)@.len() ==> #[trigger] final(buffer)@[i] == if i < self@.len() {
                    self@[i]
                } else {
                    old(buffer)@[i]
                },
    {
        let len: usize = if (self.len as usize) < buffer.len() {
            self.len as usize
        } else {
            buffer.len()
        };
        let mut i: usize = 0;
        while i < len
            invariant
                len <= buffer@.len(),
                len <= self@.len(),
                len == self@.len() || len == buffer@.len(),
                self.wf(),
                0 <= i <= len,
                buffer@.len() == old(buffer)@.len(),
                forall|j: int|
                    0 <= j < old(buffer)@.len() ==> #[trigger] buffer@[j] == if j < i {
                        self@[j]
                    } else {
                        old(buffer)@[j]
                    },
            decreases len - i,
        {
            buffer[i] = self.data[i];
            i += 1;
        }
        len
    }
}

/// Accumulates frames into a [`Sequence`], up to 32 frames and 96 bytes.
#[derive(Debug, Clone, Copy)]
pub struct SequenceBuilder {
    data: [u8; MAX_SEQUENCE_BYTES],
    len: u8,
    frame_count: u8,
}

impl View for SequenceBuilder {
    /// The bytes of the frames added so far.
    type V = Seq<u8>;

    closed spec fn view(&self) -> Seq<u8> {
        Seq::new(self.len as nat, |i: int| self.data@[i])
    }
}

impl SequenceBuilder {
    /// The number of frames added so far.
    pub closed spec fn spec_frame_count(&self) -> nat {
        self.frame_count as nat
    }

    /// At most 32 frames of 1 to 3 bytes each, and at most 96 bytes.
    pub open spec fn wf(&self) -> bool {
        &&& self@.len() <= MAX_SEQUENCE_BYTES
        &&& self.spec_frame_count() <= MAX_FRAMES_PER_SEQUENCE
        &&& self.spec_frame_count() <= self@.len() <= 3 * self.spec_frame_count()
    }

    /// A builder with no frames.
    pub fn new() -> (r: Self)
        ensures
            r.wf(),
            r@ == Seq::<u8>::empty(),
            r.spec_frame_count() == 0,
    {
        let r = SequenceBuilder { data: [0u8; MAX_SEQUENCE_BYTES], len: 0, frame_count: 0 };
        assert(r@ =~= Seq::<u8>::empty());
        r
    }

    /// Appends a frame. Fails if its bytes would take the sequence past 96
    /// bytes, or, failing that, if the sequence already holds 32 frames.
    pub fn add_frame(self, frame: Frame) -> (r: Result<Self, Error>)
        requires
            self.wf(),
            frame.wf(),
        ensures
            self@.len() + frame@.len() > MAX_SEQUENCE_BYTES ==> r == Err::<Self, Error>(
                Error::WaveformMemoryFull,
            ),
            self@.len() + frame@.len() <= MAX_SEQUENCE_BYTES && self.spec_frame_count()
                >= MAX_FRAMES_PER_SEQUENCE ==> r == Err::<Self, Error>(Error::TooManySequences),
            self@.len() + frame@.len() <= MAX_SEQUENCE_BYTES && self.spec_frame_count()
                < MAX_FRAMES_PER_SEQUENCE ==> (r matches Ok(b) && b.wf() && b@ == self@ + frame@
                && b.spec_frame_count() == self.spec_frame_count() + 1),
    {
        let frame_bytes = frame.as_bytes();
        if self.len as usize + frame_bytes.len() > MAX_SEQUENCE_BYTES {
            return Err(Error::WaveformMemoryFull);
        }
        if self.frame_count as usize >= MAX_FRAMES_PER_SEQUENCE {
            return Err(Error::TooManySequences);
        }
        let mut b = self;
        let mut k: usize = 0;
        while k < frame_bytes.len()
            invariant
                frame_bytes@ == frame@,
                frame.wf(),
                self.wf(),
                0 <= k <= frame_bytes@.len(),
                self@.len() + frame@.len() <= MAX_SEQUENCE_BYTES,
                b.frame_count == self.frame_count,
                b.len == self.len + k,
                b@ == self@ + frame@.subrange(0, k as int),
            decreases frame_bytes@.len() - k,
        {
            let ghost prev = b@;
            b.data[b.len as usize] = frame_bytes[k];
            b.len = b.len + 1;
            assert(b@ =~= prev.push(frame@[k as int]));
            assert(frame@.subrange(0, k + 1) =~= frame@.subrange(0, k as int).push(frame@[k as int]));
            k += 1;
            assert(b@ =~= self@ + frame@.subrange(0, k as int));
        }
        b.frame_count = b.frame_count + 1;
        assert(frame@.subrange(0, frame@.len() as int) =~= frame@);
        Ok(b)
    }

    /// The number of bytes added so far.
    pub fn current_len(&self) -> (r: usize)
        requires
            self.wf(),
        ensures
            r == self@.len(),
    {
        self.len as usize
    }

    /// The sequence made of the frames added so far; fails on no frames.
    pub fn build(self) -> (r: Result<Sequence, Error>)
        requires
            self.wf(),
        ensures
            self@.len() == 0 ==> r == Err::<Sequence, Error>(Error::EmptySequence),
            self@.len() > 0 ==> (r matches Ok(s) && s.wf() && s@ == self@),
    {
        if self.len == 0 {
            return Err(Error::EmptySequence);
        }
        let s = Sequence { data: self.data, len: self.len };
        assert(s@ =~= self@);
        Ok(s)
    }
}

impl Default for SequenceBuilder {
    fn default() -> (r: Self)
        ensures
            r.wf(),
            r@ == Seq::<u8>::empty(),
            r.spec_frame_count() == 0,
    {
        Self::new()
    }
}

} // verus!
