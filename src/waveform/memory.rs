//! Compiling snippets and sequences into one waveform-memory image.

use vstd::prelude::*;
use vstd::slice::slice_subrange;

use crate::errors::Error;
use crate::waveform::sequence::{MAX_SEQUENCE_BYTES, Sequence};
use crate::waveform::snippet::{MAX_POINTS_PER_SNIPPET, Snippet};

verus! {

/// Maximum size of the waveform memory in bytes.
pub const MAX_MEMORY_SIZE: usize = 100;

/// Maximum number of snippets (ids 1..=15; id 0 is the built-in silence).
pub const MAX_SNIPPETS: usize = 15;

/// Maximum number of sequences (ids 0..=15).
pub const MAX_SEQUENCES: usize = 16;

/// The summed length of a list of chunks.
pub open spec fn total_len(chunks: Seq<Seq<u8>>) -> nat
    decreases chunks.len(),
{
    if chunks.len() == 0 {
        0
    } else {
        total_len(chunks.drop_last()) + chunks.last().len()
    }
}

/// A list of chunks laid end to end.
pub open spec fn concat(chunks: Seq<Seq<u8>>) -> Seq<u8>
    decreases chunks.len(),
{
    if chunks.len() == 0 {
        Seq::empty()
    } else {
        concat(chunks.drop_last()) + chunks.last()
    }
}

/// Index of the first data byte: after the two count bytes and one pointer per chunk.
pub open spec fn data_area_start(num_chunks: nat) -> nat {
    2 + num_chunks
}

/// The absolute index of the last byte of chunk `k`, when the chunks are laid
/// out in order from `data_area_start(chunks.len())` on.
pub open spec fn end_pointer(chunks: Seq<Seq<u8>>, k: int) -> int {
    data_area_start(chunks.len()) + total_len(chunks.take(k + 1)) - 1
}

/// One end pointer per chunk, in order.
pub open spec fn pointer_table(chunks: Seq<Seq<u8>>) -> Seq<u8> {
    Seq::new(chunks.len(), |k: int| end_pointer(chunks, k) as u8)
}

/// The size of the image of the given snippets and sequences.
pub open spec fn memory_size(snippets: Seq<Seq<u8>>, sequences: Seq<Seq<u8>>) -> nat {
    data_area_start(snippets.len() + sequences.len()) + total_len(snippets + sequences)
}

/// The image: the two counts, the pointer table (snippets first), the snippet
/// bytes, then the sequence bytes.
pub open spec fn memory_image(snippets: Seq<Seq<u8>>, sequences: Seq<Seq<u8>>) -> Seq<u8> {
    seq![snippets.len() as u8, sequences.len() as u8] + pointer_table(snippets + sequences)
        + concat(snippets) + concat(sequences)
}

/// The outcome of compiling: empty lists are refused first, then an image
/// over the memory budget.
pub open spec fn compile(snippets: Seq<Seq<u8>>, sequences: Seq<Seq<u8>>) -> Result<
    Seq<u8>,
    Error,
> {
    if snippets.len() == 0 {
        Err(Error::EmptySnippet)
    } else if sequences.len() == 0 {
        Err(Error::EmptySequence)
    } else if memory_size(snippets, sequences) > MAX_MEMORY_SIZE {
        Err(Error::WaveformMemoryFull)
    } else {
        Ok(memory_image(snippets, sequences))
    }
}

proof fn lemma_take_step(chunks: Seq<Seq<u8>>, k: int)
    requires
        0 <= k < chunks.len(),
    ensures
        total_len(chunks.take(k + 1)) == total_len(chunks.take(k)) + chunks[k].len(),
        concat(chunks.take(k + 1)) == concat(chunks.take(k)) + chunks[k],
{
    assert(chunks.take(k + 1).drop_last() =~= chunks.take(k));
}

proof fn lemma_take_all(chunks: Seq<Seq<u8>>)
    ensures
        chunks.take(chunks.len() as int) == chunks,
{
    assert(chunks.take(chunks.len() as int) =~= chunks);
}

proof fn lemma_concat_len(chunks: Seq<Seq<u8>>)
    ensures
        concat(chunks).len() == total_len(chunks),
    decreases chunks.len(),
{
    if chunks.len() > 0 {
        lemma_concat_len(chunks.drop_last());
    }
}

proof fn lemma_concat_add(a: Seq<Seq<u8>>, b: Seq<Seq<u8>>)
    ensures
        concat(a + b) == concat(a) + concat(b),
        total_len(a + b) == total_len(a) + total_len(b),
    decreases b.len(),
{
    if b.len() == 0 {
        assert(a + b =~= a);
        assert(concat(a) + concat(b) =~= concat(a));
    } else {
        assert((a + b).drop_last() =~= a + b.drop_last());
        lemma_concat_add(a, b.drop_last());
        assert(concat(a + b) =~= concat(a) + concat(b));
    }
}

/// Taking more chunks never shortens the total, and strictly lengthens it when
/// every chunk is non-empty.
proof fn lemma_take_monotone(chunks: Seq<Seq<u8>>, i: int, j: int)
    requires
        0 <= i <= j <= chunks.len(),
    ensures
        total_len(chunks.take(i)) <= total_len(chunks.take(j)),
        i < j && (forall|k: int| 0 <= k < chunks.len() ==> #[trigger] chunks[k].len() >= 1)
            ==> total_len(chunks.take(i)) < total_len(chunks.take(j)),
    decreases j - i,
{
    if i < j {
        lemma_take_monotone(chunks, i, j - 1);
        lemma_take_step(chunks, j - 1);
    }
}

proof fn lemma_total_len_bound(chunks: Seq<Seq<u8>>, k: int, bound: nat)
    requires
        0 <= k <= chunks.len(),
        forall|m: int| 0 <= m < chunks.len() ==> #[trigger] chunks[m].len() <= bound,
    ensures
        total_len(chunks.take(k)) <= k * bound,
    decreases k,
{
    if k > 0 {
        lemma_total_len_bound(chunks, k - 1, bound);
        lemma_take_step(chunks, k - 1);
        assert((k - 1) * bound + bound == k * bound) by (nonlinear_arith);
    }
}

/// The compiled length is two count bytes, one pointer per chunk and the sum
/// of the chunk lengths; an image over the memory budget is refused, and only
/// empty lists or an oversized image are refused.
pub proof fn lemma_size_law(snippets: Seq<Seq<u8>>, sequences: Seq<Seq<u8>>)
    ensures
        compile(snippets, sequences) matches Ok(image) ==> image.len() == memory_size(
            snippets,
            sequences,
        ) && image.len() <= MAX_MEMORY_SIZE,
        memory_size(snippets, sequences) > MAX_MEMORY_SIZE ==> compile(snippets, sequences) is Err,
        snippets.len() > 0 && sequences.len() > 0 && memory_size(snippets, sequences)
            <= MAX_MEMORY_SIZE ==> compile(snippets, sequences) is Ok,
{
    lemma_concat_len(snippets);
    lemma_concat_len(sequences);
    lemma_concat_add(snippets, sequences);
}

/// The end pointers of an image that fits are strictly increasing, and entry
/// `k` is the data-area start plus the length of chunks `0..=k`, minus one.
pub proof fn lemma_pointer_table(snippets: Seq<Seq<u8>>, sequences: Seq<Seq<u8>>)
    requires
        forall|i: int| 0 <= i < snippets.len() ==> #[trigger] snippets[i].len() >= 1,
        forall|i: int| 0 <= i < sequences.len() ==> #[trigger] sequences[i].len() >= 1,
        memory_size(snippets, sequences) <= MAX_MEMORY_SIZE,
    ensures
        pointer_table(snippets + sequences).len() == snippets.len() + sequences.len(),
        forall|k: int|
            0 <= k < snippets.len() + sequences.len() ==> #[trigger] pointer_table(
                snippets + sequences,
            )[k] == data_area_start(snippets.len() + sequences.len()) + total_len(
                (snippets + sequences).take(k + 1),
            ) - 1,
        forall|k1: int, k2: int|
            0 <= k1 < k2 < snippets.len() + sequences.len() ==> #[trigger] pointer_table(
                snippets + sequences,
            )[k1] < #[trigger] pointer_table(snippets + sequences)[k2],
{
    let chunks = snippets + sequences;
    assert forall|k: int| 0 <= k < chunks.len() implies #[trigger] chunks[k].len() >= 1 by {
        if k >= snippets.len() {
            assert(chunks[k] == sequences[k - snippets.len()]);
        }
    }
    lemma_take_all(chunks);
    assert forall|k: int| 0 <= k < chunks.len() implies 1 <= #[trigger] end_pointer(chunks, k) < 256 by {
        lemma_take_monotone(chunks, 0, k + 1);
        lemma_take_monotone(chunks, k + 1, chunks.len() as int);
    }
    assert forall|k1: int, k2: int|
        0 <= k1 < k2 < chunks.len() implies #[trigger] pointer_table(chunks)[k1]
        < #[trigger] pointer_table(chunks)[k2] by {
        lemma_take_monotone(chunks, k1 + 1, k2 + 1);
        lemma_take_monotone(chunks, 0, k1 + 1);
        lemma_take_monotone(chunks, k2 + 1, chunks.len() as int);
    }
}

/// A compiled waveform-memory image, ready to upload.
#[derive(Debug, Clone, Copy)]
pub struct WaveformMemory {
    data: [u8; MAX_MEMORY_SIZE],
    len: u8,
    num_snippets: u8,
    num_sequences: u8,
}

impl View for WaveformMemory {
    type V = Seq<u8>;

    closed spec fn view(&self) -> Seq<u8> {
        Seq::new(self.len as nat, |i: int| self.data@[i])
    }
}

impl WaveformMemory {
    /// The number of snippets in the image.
    pub closed spec fn spec_num_snippets(&self) -> u8 {
        self.num_snippets
    }

    /// The number of sequences in the image.
    pub closed spec fn spec_num_sequences(&self) -> u8 {
        self.num_sequences
    }

    /// An image fits the memory budget.
    pub open spec fn wf(&self) -> bool {
        self@.len() <= MAX_MEMORY_SIZE
    }

    /// The number of bytes of the image.
    pub fn len(&self) -> (r: usize)
        requires
            self.wf(),
        ensures
            r == self@.len(),
    {
        self.len as usize
    }

    /// Whether the image has no bytes.
    pub fn is_empty(&self) -> (r: bool)
        requires
            self.wf(),
        ensures
            r == (self@.len() == 0),
    {
        self.len == 0
    }

    /// The bytes of the image.
    pub fn as_bytes(&self) -> (r: &[u8])
        requires
            self.wf(),
        ensures
            r@ == self@,
    {
        let r = slice_subrange(self.data.as_slice(), 0, self.len as usize);
        assert(r@ =~= self@);
        r
    }

    /// The number of snippets in the image.
    pub fn num_snippets(&self) -> (r: u8)
        ensures
            r == self.spec_num_snippets(),
    {
        self.num_snippets
    }

    /// The number of sequences in the image.
    pub fn num_sequences(&self) -> (r: u8)
        ensures
            r == self.spec_num_sequences(),
    {
        self.num_sequences
    }
}

/// Collects snippets (ids 1, 2, ... in order of insertion) and sequences
/// (ids 0, 1, ... in order of insertion) and compiles them into a
/// [`WaveformMemory`].
#[derive(Debug, Clone, Copy)]
pub struct WaveformMemoryBuilder {
    snippets: [Option<Snippet>; MAX_SNIPPETS],
    sequences: [Option<Sequence>; MAX_SEQUENCES],
    num_snippets: u8,
    num_sequences: u8,
    #[allow(dead_code)]
    acceleration_enabled: bool,
}

impl WaveformMemoryBuilder {
    /// The bytes of each snippet added so far, in order.
    pub closed spec fn spec_snippets(&self) -> Seq<Seq<u8>> {
        Seq::new(self.num_snippets as nat, |i: int| self.snippets@[i]->Some_0@)
    }

    /// The bytes of each sequence added so far, in order.
    pub closed spec fn spec_sequences(&self) -> Seq<Seq<u8>> {
        Seq::new(self.num_sequences as nat, |i: int| self.sequences@[i]->Some_0@)
    }

    /// Whether amplitudes are meant for acceleration mode.
    pub closed spec fn spec_acceleration_enabled(&self) -> bool {
        self.acceleration_enabled
    }

    /// The slots below each count hold valid values.
    pub closed spec fn slots_valid(&self) -> bool {
        &&& self.num_snippets <= MAX_SNIPPETS
        &&& self.num_sequences <= MAX_SEQUENCES
        &&& forall|i: int|
            0 <= i < self.num_snippets ==> (#[trigger] self.snippets@[i] matches Some(s) && s.wf())
        &&& forall|i: int|
            0 <= i < self.num_sequences ==> (#[trigger] self.sequences@[i] matches Some(s)
                && s.wf())
    }

    /// At most 15 snippets of 1 to 16 bytes and at most 16 sequences of 1 to 96 bytes.
    pub open spec fn wf(&self) -> bool {
        &&& self.slots_valid()
        &&& self.spec_snippets().len() <= MAX_SNIPPETS
        &&& self.spec_sequences().len() <= MAX_SEQUENCES
        &&& forall|i: int|
            0 <= i < self.spec_snippets().len() ==> 1 <= #[trigger] self.spec_snippets()[i].len()
                <= MAX_POINTS_PER_SNIPPET
        &&& forall|i: int|
            0 <= i < self.spec_sequences().len() ==> 1 <= #[trigger] self.spec_sequences()[i].len()
                <= MAX_SEQUENCE_BYTES
    }

    /// An empty builder. `acceleration_enabled` records whether amplitudes are
    /// meant for acceleration mode; it does not change the encoding.
    pub fn new(acceleration_enabled: bool) -> (r: Self)
        ensures
            r.wf(),
            r.spec_snippets() == Seq::<Seq<u8>>::empty(),
            r.spec_sequences() == Seq::<Seq<u8>>::empty(),
            r.spec_acceleration_enabled() == acceleration_enabled,
    {
        let r = WaveformMemoryBuilder {
            snippets: [None; MAX_SNIPPETS],
            sequences: [None; MAX_SEQUENCES],
            num_snippets: 0,
            num_sequences: 0,
            acceleration_enabled,
        };
        assert(r.spec_snippets() =~= Seq::<Seq<u8>>::empty());
        assert(r.spec_sequences() =~= Seq::<Seq<u8>>::empty());
        r
    }

    /// Adds a snippet, which gets id [`Self::next_snippet_id`]. Fails when 15
    /// snippets are already there; the builder it was called on keeps them.
    pub fn add_snippet(self, snippet: Snippet) -> (r: Result<Self, Error>)
        requires
            self.wf(),
            snippet.wf(),
        ensures
            self.spec_snippets().len() >= MAX_SNIPPETS ==> r == Err::<Self, Error>(
                Error::TooManySnippets,
            ),
            self.spec_snippets().len() < MAX_SNIPPETS ==> (r matches Ok(b) && b.wf()
                && b.spec_snippets() == self.spec_snippets().push(snippet@) && b.spec_sequences()
                == self.spec_sequences() && b.spec_acceleration_enabled()
                == self.spec_acceleration_enabled()),
    {
        if self.num_snippets as usize >= MAX_SNIPPETS {
            return Err(Error::TooManySnippets);
        }
        let mut b = self;
        b.snippets[b.num_snippets as usize] = Some(snippet);
        b.num_snippets = b.num_snippets + 1;
        assert(b.spec_snippets() =~= self.spec_snippets().push(snippet@));
        assert(b.spec_sequences() =~= self.spec_sequences());
        Ok(b)
    }

    /// The id the next snippet added will get.
    pub fn next_snippet_id(&self) -> (r: u8)
        requires
            self.wf(),
        ensures
            r == self.spec_snippets().len() + 1,
    {
        self.num_snippets + 1
    }

    /// Adds a sequence, which gets id [`Self::next_sequence_id`]. Fails when 16
    /// sequences are already there.
    pub fn add_sequence(self, sequence: Sequence) -> (r: Result<Self, Error>)
        requires
            self.wf(),
            sequence.wf(),
        ensures
            self.spec_sequences().len() >= MAX_SEQUENCES ==> r == Err::<Self, Error>(
                Error::TooManySequences,
            ),
            self.spec_sequences().len() < MAX_SEQUENCES ==> (r matches Ok(b) && b.wf()
                && b.spec_sequences() == self.spec_sequences().push(sequence@) && b.spec_snippets()
                == self.spec_snippets() && b.spec_acceleration_enabled()
                == self.spec_acceleration_enabled()),
    {
        if self.num_sequences as usize >= MAX_SEQUENCES {
            return Err(Error::TooManySequences);
        }
        let mut b = self;
        b.sequences[b.num_sequences as usize] = Some(sequence);
        b.num_sequences = b.num_sequences + 1;
        assert(b.spec_sequences() =~= self.spec_sequences().push(sequence@));
        assert(b.spec_snippets() =~= self.spec_snippets());
        Ok(b)
    }

    /// The id the next sequence added will get.
    pub fn next_sequence_id(&self) -> (r: u8)
        requires
            self.wf(),
        ensures
            r == self.spec_sequences().len(),
    {
        self.num_sequences
    }

    /// The length of chunk `k`, counting snippets first, then sequences.
    fn chunk_len(&self, k: usize) -> (r: usize)
        requires
            self.wf(),
            k < self.spec_snippets().len() + self.spec_sequences().len(),
        ensures
            r == (self.spec_snippets() + self.spec_sequences())[k as int].len(),
    {
        let ns: usize = self.num_snippets as usize;
        if k < ns {
            match &self.snippets[k] {
                Some(snippet) => snippet.byte_len(),
                None => 0,
            }
        } else {
            match &self.sequences[k - ns] {
                Some(sequence) => sequence.byte_len(),
                None => 0,
            }
        }
    }

    /// Byte `j` of chunk `k`, counting snippets first, then sequences.
    fn chunk_byte(&self, k: usize, j: usize) -> (r: u8)
        requires
            self.wf(),
            k < self.spec_snippets().len() + self.spec_sequences().len(),
            j < (self.spec_snippets() + self.spec_sequences())[k as int].len(),
        ensures
            r == (self.spec_snippets() + self.spec_sequences())[k as int][j as int],
    {
        let ns: usize = self.num_snippets as usize;
        if k < ns {
            match &self.snippets[k] {
                Some(snippet) => snippet.points()[j].as_byte(),
                None => 0,
            }
        } else {
            match &self.sequences[k - ns] {
                Some(sequence) => sequence.as_bytes()[j],
                None => 0,
            }
        }
    }

    /// The size of the image of what has been added so far.
    fn calculate_size(&self) -> (r: usize)
        requires
            self.wf(),
        ensures
            r == memory_size(self.spec_snippets(), self.spec_sequences()),
    {
        let ghost chunks = self.spec_snippets() + self.spec_sequences();
        let ns: usize = self.num_snippets as usize;
        let nq: usize = self.num_sequences as usize;
        let n: usize = ns + nq;
        assert forall|m: int| 0 <= m < chunks.len() implies #[trigger] chunks[m].len()
            <= MAX_SEQUENCE_BYTES by {
            if m >= ns {
                assert(chunks[m] == self.spec_sequences()[m - ns]);
            }
        }
        let mut size: usize = 0;
        let mut k: usize = 0;
        while k < n
            invariant
                self.wf(),
                ns == self.spec_snippets().len(),
                nq == self.spec_sequences().len(),
                n == ns + nq,
                chunks == self.spec_snippets() + self.spec_sequences(),
                forall|m: int| 0 <= m < chunks.len() ==> #[trigger] chunks[m].len()
                    <= MAX_SEQUENCE_BYTES,
                0 <= k <= n,
                size == total_len(chunks.take(k as int)),
            decreases n - k,
        {
            proof {
                lemma_take_step(chunks, k as int);
                lemma_total_len_bound(chunks, k + 1, MAX_SEQUENCE_BYTES as nat);
            }
            size = size + self.chunk_len(k);
            k += 1;
        }
        proof {
            lemma_take_all(chunks);
            lemma_total_len_bound(chunks, chunks.len() as int, MAX_SEQUENCE_BYTES as nat);
        }
        2 + ns + nq + size
    }

    /// Compiles the snippets and sequences into an image. Fails with no
    /// snippets, then with no sequences, then when the image would exceed 100
    /// bytes; nothing is produced on failure.
    pub fn build(self) -> (r: Result<WaveformMemory, Error>)
        requires
            self.wf(),
        ensures
            match compile(self.spec_snippets(), self.spec_sequences()) {
                Ok(image) => r matches Ok(m) && m.wf() && m@ == image && m.spec_num_snippets()
                    == self.spec_snippets().len() && m.spec_num_sequences()
                    == self.spec_sequences().len(),
                Err(e) => r == Err::<WaveformMemory, Error>(e),
            },
    {
        if self.num_snippets == 0 {
            return Err(Error::EmptySnippet);
        }
        if self.num_sequences == 0 {
            return Err(Error::EmptySequence);
        }
        let total_size: usize = self.calculate_size();
        if total_size > MAX_MEMORY_SIZE {
            return Err(Error::WaveformMemoryFull);
        }
        let ghost snips = self.spec_snippets();
        let ghost seqs = self.spec_sequences();
        let ghost chunks = snips + seqs;
        let ghost header = seq![self.num_snippets, self.num_sequences];
        let ghost table = pointer_table(chunks);
        let ns: usize = self.num_snippets as usize;
        let nq: usize = self.num_sequences as usize;
        let n: usize = ns + nq;
        let start: usize = 2 + n;
        proof {
            assert forall|m: int| 0 <= m < chunks.len() implies 1 <= #[trigger] chunks[m].len()
                <= MAX_SEQUENCE_BYTES by {
                if m >= ns {
                    assert(chunks[m] == seqs[m - ns]);
                }
            }
            lemma_take_all(chunks);
        }

        let mut data: [u8; MAX_MEMORY_SIZE] = [0u8; MAX_MEMORY_SIZE];
        data[0] = self.num_snippets;
        data[1] = self.num_sequences;
        let mut pos: usize = 2;
        assert(data@.subrange(0, 2) =~= header);

        // End pointers: snippets first, then sequences, with one running offset.
        let mut offset: usize = 0;
        let mut k: usize = 0;
        while k < n
            invariant
                self.wf(),
                ns == snips.len(),
                nq == seqs.len(),
                n == ns + nq,
                chunks == snips + seqs,
                snips == self.spec_snippets(),
                seqs == self.spec_sequences(),
                table == pointer_table(chunks),
                start == data_area_start(n as nat),
                forall|m: int| 0 <= m < chunks.len() ==> 1 <= #[trigger] chunks[m].len()
                    <= MAX_SEQUENCE_BYTES,
                chunks.take(n as int) == chunks,
                total_size == memory_size(snips, seqs),
                total_size <= MAX_MEMORY_SIZE,
                0 <= k <= n,
                pos == 2 + k,
                offset == total_len(chunks.take(k as int)),
                data@.subrange(0, pos as int) == header + table.take(k as int),
            decreases n - k,
        {
            let len: usize = self.chunk_len(k);
            proof {
                lemma_take_step(chunks, k as int);
                lemma_take_monotone(chunks, k + 1, n as int);
            }
            offset = offset + len;
            let end_ptr: usize = start + offset - 1;
            let ghost prev = data@.subrange(0, pos as int);
            data[pos] = end_ptr as u8;
            assert(data@.subrange(0, pos + 1) =~= prev.push(end_ptr as u8));
            assert(table.take(k + 1) =~= table.take(k as int).push(table[k as int]));
            pos = pos + 1;
            k += 1;
        }
        assert(table.take(n as int) =~= table);

        // Chunk bytes: snippets first, then sequences.
        let mut k: usize = 0;
        while k < n
            invariant
                self.wf(),
                ns == snips.len(),
                nq == seqs.len(),
                n == ns + nq,
                chunks == snips + seqs,
                snips == self.spec_snippets(),
                seqs == self.spec_sequences(),
                forall|m: int| 0 <= m < chunks.len() ==> 1 <= #[trigger] chunks[m].len()
                    <= MAX_SEQUENCE_BYTES,
                chunks.take(n as int) == chunks,
                total_size == memory_size(snips, seqs),
                total_size <= MAX_MEMORY_SIZE,
                0 <= k <= n,
                pos == 2 + n + total_len(chunks.take(k as int)),
                data@.subrange(0, pos as int) == header + table + concat(chunks.take(k as int)),
            decreases n - k,
        {
            let len: usize = self.chunk_len(k);
            proof {
                lemma_take_step(chunks, k as int);
                lemma_take_monotone(chunks, k + 1, n as int);
                lemma_concat_add(snips, seqs);
            }
            let ghost bytes = chunks[k as int];
            let mut j: usize = 0;
            while j < len
                invariant
                    self.wf(),
                    ns == snips.len(),
                    nq == seqs.len(),
                    chunks == snips + seqs,
                    snips == self.spec_snippets(),
                    seqs == self.spec_sequences(),
                    len == bytes.len(),
                    bytes == chunks[k as int],
                    0 <= k < n,
                    chunks.take(n as int) == chunks,
                    total_size == memory_size(snips, seqs),
                    total_size <= MAX_MEMORY_SIZE,
                    memory_size(snips, seqs) == 2 + n + total_len(chunks),
                    total_len(chunks.take(k + 1)) == total_len(chunks.take(k as int))
                        + chunks[k as int].len(),
                    total_len(chunks.take(k + 1)) <= total_len(chunks.take(n as int)),
                    0 <= j <= bytes.len(),
                    pos == 2 + n + total_len(chunks.take(k as int)) + j,
                    data@.subrange(0, pos as int) == header + table + concat(
                        chunks.take(k as int),
                    ) + bytes.take(j as int),
                decreases bytes.len() - j,
            {
                let ghost prev = data@.subrange(0, pos as int);
                let byte: u8 = self.chunk_byte(k, j);
                data[pos] = byte;
                assert(data@.subrange(0, pos + 1) =~= prev.push(bytes[j as int]));
                assert(bytes.take(j + 1) =~= bytes.take(j as int).push(bytes[j as int]));
                pos = pos + 1;
                j += 1;
            }
            assert(bytes.take(bytes.len() as int) =~= bytes);
            assert(header + table + concat(chunks.take(k as int)) + chunks[k as int] =~= header
                + table + concat(chunks.take(k + 1)));
            k += 1;
        }
        proof {
            lemma_concat_add(snips, seqs);
            assert(header + table + concat(chunks) =~= memory_image(snips, seqs));
            assert(data@.subrange(0, pos as int) == memory_image(snips, seqs));
        }
        let memory = WaveformMemory {
            data,
            len: pos as u8,
            num_snippets: self.num_snippets,
            num_sequences: self.num_sequences,
        };
        assert(memory@ =~= data@.subrange(0, pos as int));
        Ok(memory)
    }
}

} // verus!
