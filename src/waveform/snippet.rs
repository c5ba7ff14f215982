//! Piecewise-linear points and the snippets (waveform shapes) made of them.

use vstd::prelude::*;
use vstd::slice::slice_subrange;

use crate::errors::Error;

verus! {

/// Maximum number of points in one snippet.
pub const MAX_POINTS_PER_SNIPPET: usize = 16;

/// The byte of a point: bit 7 is the ramp flag, bits 6..4 hold the timebase
/// count minus one, bits 3..0 the amplitude.
pub open spec fn point_byte(ramp: bool, timebases: u8, amplitude: u8) -> u8 {
    (if ramp { 0x80u8 } else { 0u8 }) | (((timebases - 1) as u8) << 4u8) | amplitude
}

/// The ramp flag held by a point byte.
pub open spec fn ramp_of(byte: u8) -> bool {
    byte & 0x80u8 != 0
}

/// The timebase count (1..=8) held by a point byte.
pub open spec fn timebases_of(byte: u8) -> u8 {
    (((byte >> 4u8) & 0x07u8) + 1) as u8
}

/// The amplitude (0..=15) held by a point byte.
pub open spec fn amplitude_of(byte: u8) -> u8 {
    byte & 0x0Fu8
}

/// The outcome of encoding a point: the checks on the timebase count come
/// before those on the amplitude.
pub open spec fn point_encoding(ramp: bool, timebases: u8, amplitude: u8) -> Result<u8, Error> {
    if !(1 <= timebases <= 8) {
        Err(Error::InvalidTimebase)
    } else if amplitude > 15 {
        Err(Error::InvalidAmplitude)
    } else {
        Ok(point_byte(ramp, timebases, amplitude))
    }
}

/// Decoding the byte of a valid point gives back the ramp flag, the timebase
/// count and the amplitude it was made from.
pub proof fn lemma_point_round_trip(ramp: bool, timebases: u8, amplitude: u8)
    requires
        1 <= timebases <= 8,
        amplitude <= 15,
    ensures
        ramp_of(point_byte(ramp, timebases, amplitude)) == ramp,
        timebases_of(point_byte(ramp, timebases, amplitude)) == timebases,
        amplitude_of(point_byte(ramp, timebases, amplitude)) == amplitude,
{
    let r: u8 = if ramp { 0x80u8 } else { 0u8 };
    assert(r == 0x80u8 || r == 0u8);
    assert(((r | (((timebases - 1) as u8) << 4u8) | amplitude) & 0x80u8 != 0) == (r == 0x80u8))
        by (bit_vector)
        requires
            r == 0x80u8 || r == 0u8,
            1 <= timebases <= 8,
            amplitude <= 15,
    ;
    assert(((((r | (((timebases - 1) as u8) << 4u8) | amplitude) >> 4u8) & 0x07u8) + 1) as u8
        == timebases) by (bit_vector)
        requires
            r == 0x80u8 || r == 0u8,
            1 <= timebases <= 8,
            amplitude <= 15,
    ;
    assert(((r | (((timebases - 1) as u8) << 4u8) | amplitude) & 0x0Fu8) == amplitude)
        by (bit_vector)
        requires
            r == 0x80u8 || r == 0u8,
            1 <= timebases <= 8,
            amplitude <= 15,
    ;
}

/// One piecewise-linear point of a snippet, packed into its byte.
///
/// The amplitude's meaning (signed or a percentage) depends on whether the
/// device runs with acceleration; the encoding does not.
#[derive(Debug, Clone, Copy, PartialEq, Eq)]
pub struct PwlPoint {
    byte: u8,
}

impl View for PwlPoint {
    type V = u8;

    closed spec fn view(&self) -> u8 {
        self.byte
    }
}

impl PwlPoint {
    /// A point with the given raw byte.
    pub(crate) fn from_byte(byte: u8) -> (r: Self)
        ensures
            r@ == byte,
    {
        PwlPoint { byte }
    }

    /// A point that ramps to `amplitude` over `timebases` timebases (1..=8).
    pub fn ramp(timebases: u8, amplitude: u8) -> (r: Result<Self, Error>)
        ensures
            match point_encoding(true, timebases, amplitude) {
                Ok(b) => r is Ok && r->Ok_0@ == b,
                Err(e) => r == Err::<Self, Error>(e),
            },
    {
        Self::new(true, timebases, amplitude)
    }

    /// A point that steps to `amplitude` and holds it for `timebases` timebases (1..=8).
    pub fn step(timebases: u8, amplitude: u8) -> (r: Result<Self, Error>)
        ensures
            match point_encoding(false, timebases, amplitude) {
                Ok(b) => r is Ok && r->Ok_0@ == b,
                Err(e) => r == Err::<Self, Error>(e),
            },
    {
        Self::new(false, timebases, amplitude)
    }

    fn new(ramp: bool, timebases: u8, amplitude: u8) -> (r: Result<Self, Error>)
        ensures
            match point_encoding(ramp, timebases, amplitude) {
                Ok(b) => r is Ok && r->Ok_0@ == b,
                Err(e) => r == Err::<Self, Error>(e),
            },
    {
        if !(1 <= timebases && timebases <= 8) {
            return Err(Error::InvalidTimebase);
        }
        if amplitude > 15 {
            return Err(Error::InvalidAmplitude);
        }
        let rmp_bit: u8 = if ramp { 0x80 } else { 0x00 };
        let time_bits: u8 = (timebases - 1) << 4;
        let amp_bits: u8 = amplitude & 0x0F;
        assert(amplitude & 0x0Fu8 == amplitude) by (bit_vector)
            requires
                amplitude <= 15,
        ;
        Ok(PwlPoint { byte: rmp_bit | time_bits | amp_bits })
    }

    /// The byte this point is stored as.
    pub fn as_byte(&self) -> (r: u8)
        ensures
            r == self@,
    {
        self.byte
    }

    /// Whether this point ramps (rather than steps) to its amplitude.
    pub fn is_ramp(&self) -> (r: bool)
        ensures
            r == ramp_of(self@),
    {
        (self.byte & 0x80) != 0
    }

    /// The number of timebases this point lasts (1..=8).
    pub fn timebases(&self) -> (r: u8)
        ensures
            r == timebases_of(self@),
            1 <= r <= 8,
    {
        let b: u8 = self.byte;
        assert(((b >> 4u8) & 0x07u8) <= 7) by (bit_vector);
        ((b >> 4) & 0x07) + 1
    }

    /// The amplitude of this point (0..=15).
    pub fn amplitude(&self) -> (r: u8)
        ensures
            r == amplitude_of(self@),
            r <= 15,
    {
        let b: u8 = self.byte;
        assert(b & 0x0Fu8 <= 15) by (bit_vector);
        b & 0x0F
    }
}

/// A waveform shape: 1 to 16 points, one byte each, in the order they were added.
#[derive(Debug, Clone, Copy)]
pub struct Snippet {
    points: [PwlPoint; MAX_POINTS_PER_SNIPPET],
    len: u8,
}

impl View for Snippet {
    /// The encoded snippet: the bytes of its points in order.
    type V = Seq<u8>;

    closed spec fn view(&self) -> Seq<u8> {
        Seq::new(self.len as nat, |i: int| self.points@[i]@)
    }
}

impl Snippet {
    /// A snippet holds 1 to 16 points.
    pub open spec fn wf(&self) -> bool {
        1 <= self@.len() <= MAX_POINTS_PER_SNIPPET
    }

    /// The points of this snippet, in order.
    pub fn points(&self) -> (r: &[PwlPoint])
        requires
            self.wf(),
        ensures
            r@.len() == self@.len(),
            forall|i: int| 0 <= i < r@.len() ==> (#[trigger] r@[i])@ == self@[i],
    {
        slice_subrange(self.points.as_slice(), 0, self.len as usize)
    }

    /// The number of bytes this snippet takes in waveform memory.
    pub fn byte_len(&self) -> (r: usize)
        requires
            self.wf(),
        ensures
            r == self@.len(),
    {
        self.len as usize
    }

    /// Writes the snippet's bytes to the front of `buffer`, as many as fit,
    /// and returns the snippet's full length.
    pub fn encode_into(&self, buffer: &mut [u8]) -> (r: usize)
        requires
            self.wf(),
        ensures
            r == self@.len(),
            final(buffer)@.len() == old(buffer)@.len(),
            forall|i: int|
                0 <= i < old(buffer)@.len() ==> #[trigger] final(buffer)@[i] == if i < self@.len() {
                    self@[i]
                } else {
                    old(buffer)@[i]
                },
    {
        let len: usize = if (self.len as usize) < buffer.len() {
            self.len as usize
        } else {
            buffer.len()
        };
        let mut i: usize = 0;
        while i < len
            invariant
                len <= buffer@.len(),
                len <= self@.len(),
                len == self@.len() || len == buffer@.len(),
                self.wf(),
                0 <= i <= len,
                buffer@.len() == old(buffer)@.len(),
                forall|j: int|
                    0 <= j < old(buffer)@.len() ==> #[trigger] buffer@[j] == if j < i {
                        self@[j]
                    } else {
                        old(buffer)@[j]
                    },
            decreases len - i,
        {
            buffer[i] = self.points[i].as_byte();
            i += 1;
        }
        self.len as usize
    }
}

/// Accumulates up to 16 points into a [`Snippet`].
#[derive(Debug, Clone, Copy)]
pub struct SnippetBuilder {
    points: [PwlPoint; MAX_POINTS_PER_SNIPPET],
    len: u8,
}

impl View for SnippetBuilder {
    /// The bytes of the points added so far.
    type V = Seq<u8>;

    closed spec fn view(&self) -> Seq<u8> {
        Seq::new(self.len as nat, |i: int| self.points@[i]@)
    }
}

/// What adding a point (or a failed attempt at one) does to the points so far.
pub open spec fn snippet_add(points: Seq<u8>, point: Result<u8, Error>) -> Result<Seq<u8>, Error> {
    match point {
        Err(e) => Err(e),
        Ok(b) => if points.len() >= MAX_POINTS_PER_SNIPPET {
            Err(Error::TooManySnippets)
        } else {
            Ok(points.push(b))
        },
    }
}

impl SnippetBuilder {
    /// A builder holds at most 16 points.
    pub open spec fn wf(&self) -> bool {
        self@.len() <= MAX_POINTS_PER_SNIPPET
    }

    /// Whether `r` is the outcome `expected` of adding a point to this builder.
    pub open spec fn add_outcome(r: Result<Self, Error>, expected: Result<Seq<u8>, Error>) -> bool {
        match expected {
            Ok(points) => r is Ok && r->Ok_0.wf() && r->Ok_0@ == points,
            Err(e) => r == Err::<Self, Error>(e),
        }
    }

    /// A builder with no points.
    pub fn new() -> (r: Self)
        ensures
            r.wf(),
            r@ == Seq::<u8>::empty(),
    {
        let r = SnippetBuilder { points: [PwlPoint::from_byte(0); MAX_POINTS_PER_SNIPPET], len: 0 };
        assert(r@ =~= Seq::<u8>::empty());
        r
    }

    /// Adds a point that ramps to `amplitude` over `timebases` timebases.
    pub fn ramp(self, timebases: u8, amplitude: u8) -> (r: Result<Self, Error>)
        requires
            self.wf(),
        ensures
            Self::add_outcome(r, snippet_add(self@, point_encoding(true, timebases, amplitude))),
    {
        let point = match PwlPoint::ramp(timebases, amplitude) {
            Ok(p) => p,
            Err(e) => return Err(e),
        };
        self.point(point)
    }

    /// Adds a point that steps to `amplitude` and holds it for `timebases` timebases.
    pub fn step(self, timebases: u8, amplitude: u8) -> (r: Result<Self, Error>)
        requires
            self.wf(),
        ensures
            Self::add_outcome(r, snippet_add(self@, point_encoding(false, timebases, amplitude))),
    {
        let point = match PwlPoint::step(timebases, amplitude) {
            Ok(p) => p,
            Err(e) => return Err(e),
        };
        self.point(point)
    }

    /// Adds a point given as a [`PwlPoint`].
    pub fn point(self, point: PwlPoint) -> (r: Result<Self, Error>)
        requires
            self.wf(),
        ensures
            Self::add_outcome(r, snippet_add(self@, Ok(point@))),
    {
        let mut b = self;
        if b.len as usize >= MAX_POINTS_PER_SNIPPET {
            return Err(Error::TooManySnippets);
        }
        b.points[b.len as usize] = point;
        b.len = b.len + 1;
        assert(b@ =~= self@.push(point@));
        Ok(b)
    }

    /// The snippet made of the points added so far; fails on no points.
    pub fn build(self) -> (r: Result<Snippet, Error>)
        requires
            self.wf(),
        ensures
            self@.len() == 0 ==> r == Err::<Snippet, Error>(Error::EmptySnippet),
            self@.len() > 0 ==> r is Ok && r->Ok_0.wf() && r->Ok_0@ == self@,
    {
        if self.len == 0 {
            return Err(Error::EmptySnippet);
        }
        let s = Snippet { points: self.points, len: self.len };
        assert(s@ =~= self@);
        Ok(s)
    }
}

impl Default for SnippetBuilder {
    fn default() -> (r: Self)
        ensures
            r.wf(),
            r@ == Seq::<u8>::empty(),
    {
        Self::new()
    }
}

} // verus!
