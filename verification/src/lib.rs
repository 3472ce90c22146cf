//! A pull-driven adapter that turns a readable byte source into a lazy
//! sequence of owned byte chunks, clamped to an optional total length.
//!
//! The adapter itself performs no I/O. A driver that owns the byte source
//! asks [`ChunkedFileSource::next_read_size`] how many bytes to request,
//! performs one read of at most that size into its scratch buffer, and
//! reports the outcome to [`ChunkedFileSource::step`], which decides whether
//! the pull produced a chunk, finished the sequence, failed, or must be
//! retried. The adapter guarantees that the total number of bytes emitted
//! never exceeds the declared limit, and that no empty chunk is ever emitted.
use vstd::prelude::*;

verus! {

/// Default capacity of the scratch buffer a driver reads into.
pub const BUF_SIZE: usize = 8192;

/// Outcome of one read into the scratch buffer, as the driver that owns the
/// byte source saw it.
pub enum ReadOutcome<E> {
    /// The read completed; the vector holds a copy of exactly the bytes the
    /// source filled, at most the requested window. Empty means the source
    /// reached its natural end of data.
    Filled(Vec<u8>),
    /// The read failed; the sequence ends with this terminal error.
    Failed(E),
    /// The source was not ready; the same pull must be retried later.
    NotReady,
}

/// What one pull yielded.
pub enum Pull<E> {
    /// The next chunk of the sequence: owned bytes, never empty.
    Chunk(Vec<u8>),
    /// The sequence ended: the budget was spent or the source ran dry.
    Finished,
    /// The sequence ended with the source's terminal error.
    Failed(E),
    /// Nothing happened; retry the pull once the source is ready.
    NotReady,
}

/// Progress of the chunked read: the declared byte budget and how much of it
/// has already been emitted. The byte source and the scratch buffer live with
/// the driver; this type makes every decision about them.
pub struct ChunkedFileSource {
    /// Capacity of the driver's scratch buffer; no read request exceeds it.
    pub buf_size: usize,
    /// Total byte budget, if one was declared. `None` means "read until the
    /// source reports end-of-data".
    pub limit: Option<usize>,
    /// Bytes emitted so far; never exceeds `limit` when one is set.
    pub produced: usize,
}

impl ChunkedFileSource {
    /// The scratch buffer can hold at least one byte, and what was produced
    /// stays within the declared budget.
    pub open spec fn wf(self) -> bool {
        &&& self.buf_size > 0
        &&& (self.limit matches Some(l) ==> self.produced <= l)
    }

    /// The whole budget has been emitted; no further read may be issued.
    pub open spec fn spec_exhausted(self) -> bool {
        self.limit matches Some(l) && self.produced == l
    }

    /// Size of the next read request: the remaining budget or the scratch
    /// capacity, whichever is smaller.
    pub open spec fn spec_window(self) -> usize
        recommends
            self.wf(),
            !self.spec_exhausted(),
    {
        match self.limit {
            Some(l) => if l - self.produced < self.buf_size {
                (l - self.produced) as usize
            } else {
                self.buf_size
            },
            None => self.buf_size,
        }
    }

    /// Create an adapter that will emit at most `content_length` bytes
    /// (unboundedly many when `None`), sized for the default scratch buffer.
    /// No I/O happens here.
    pub fn new(content_length: Option<usize>) -> (s: Self)
        ensures
            s == (ChunkedFileSource { buf_size: BUF_SIZE, limit: content_length, produced: 0 }),
            s.wf(),
    {
        ChunkedFileSource { buf_size: BUF_SIZE, limit: content_length, produced: 0 }
    }

    /// Like [`ChunkedFileSource::new`], for a driver whose scratch buffer
    /// holds `buf_size` bytes.
    pub fn with_buffer_size(content_length: Option<usize>, buf_size: usize) -> (s: Self)
        requires
            buf_size > 0,
        ensures
            s == (ChunkedFileSource { buf_size, limit: content_length, produced: 0 }),
            s.wf(),
    {
        ChunkedFileSource { buf_size, limit: content_length, produced: 0 }
    }

    /// How many bytes the next read must request: `min(buf_size, limit -
    /// produced)` when a limit is set, else `buf_size`. `None` means the
    /// budget is spent and the sequence has ended; no read may be issued.
    pub fn next_read_size(&self) -> (r: Option<usize>)
        requires
            self.wf(),
        ensures
            r == (if self.spec_exhausted() { None } else { Some(self.spec_window()) }),
            r is None <==> self.spec_exhausted(),
            r matches Some(w) ==> 1 <= w <= self.buf_size,
            r matches Some(w) ==> (self.limit matches Some(l) ==> self.produced + w <= l),
            self.limit is None ==> r == Some(self.buf_size),
    {
        match self.limit {
            Some(l) => {
                let rem = l - self.produced;
                if rem == 0 {
                    None
                } else if rem < self.buf_size {
                    Some(rem)
                } else {
                    Some(self.buf_size)
                }
            },
            None => Some(self.buf_size),
        }
    }

    /// The state after one pull whose read filled `k` bytes.
    pub open spec fn after_fill(self, k: usize) -> Self
        recommends
            self.produced + k <= usize::MAX,
    {
        ChunkedFileSource { produced: (self.produced + k) as usize, ..self }
    }

    /// Every fill in the run stays within the read window the adapter
    /// advertises at the point it is issued, and is non-empty (an empty fill
    /// ends the sequence instead of advancing it). Failed and not-ready pulls
    /// leave the state untouched, so a run is fully described by its fills.
    pub open spec fn fills_valid(self, fills: Seq<usize>) -> bool
        decreases fills.len(),
    {
        fills.len() == 0 || {
            &&& !self.spec_exhausted()
            &&& 0 < fills[0] <= self.spec_window()
            &&& self.after_fill(fills[0]).fills_valid(fills.drop_first())
        }
    }

    /// The state after a run of pulls whose reads filled `fills[0]`,
    /// `fills[1]`, ... bytes in turn.
    pub open spec fn after_fills(self, fills: Seq<usize>) -> Self
        decreases fills.len(),
    {
        if fills.len() == 0 {
            self
        } else {
            self.after_fill(fills[0]).after_fills(fills.drop_first())
        }
    }

    /// Decide what the pull that requested [`Self::next_read_size`] bytes
    /// yielded, given how the read went. A failure or a not-ready source
    /// leaves the state untouched; an empty fill ends the sequence even if
    /// budget remains; a non-empty fill is emitted as the next chunk, and
    /// only then does `produced` advance.
    pub fn step<E>(&mut self, outcome: ReadOutcome<E>) -> (r: Pull<E>)
        requires
            old(self).wf(),
            !old(self).spec_exhausted(),
            outcome matches ReadOutcome::Filled(data) ==> data@.len()
                <= old(self).spec_window(),
            outcome matches ReadOutcome::Filled(data) ==> old(self).produced + data@.len()
                <= usize::MAX,
        ensures
            final(self).wf(),
            final(self).limit == old(self).limit,
            final(self).buf_size == old(self).buf_size,
            outcome is NotReady ==> r is NotReady && *final(self) == *old(self),
            outcome matches ReadOutcome::Failed(e) ==> r == Pull::<E>::Failed(e) && *final(self)
                == *old(self),
            outcome matches ReadOutcome::Filled(data) ==> (if data@.len() == 0 {
                r is Finished && *final(self) == *old(self)
            } else {
                &&& r matches Pull::Chunk(c) && c@ == data@
                &&& *final(self) == old(self).after_fill(data@.len() as usize)
                &&& final(self).produced == old(self).produced + data@.len()
            }),
            r matches Pull::Chunk(c) ==> 1 <= c@.len() <= old(self).buf_size,
    {
        match outcome {
            ReadOutcome::Filled(data) => {
                if data.len() == 0 {
                    Pull::Finished
                } else {
                    self.produced = self.produced + data.len();
                    Pull::Chunk(data)
                }
            },
            ReadOutcome::Failed(e) => Pull::Failed(e),
            ReadOutcome::NotReady => Pull::NotReady,
        }
    }
}

proof fn lemma_run_preserves_wf(s: ChunkedFileSource, fills: Seq<usize>)
    requires
        s.wf(),
        s.fills_valid(fills),
    ensures
        s.after_fills(fills).wf(),
        s.after_fills(fills).limit == s.limit,
        s.after_fills(fills).buf_size == s.buf_size,
    decreases fills.len(),
{
    if fills.len() > 0 {
        lemma_run_preserves_wf(s.after_fill(fills[0]), fills.drop_first());
    }
}

proof fn lemma_fills_valid_prefix(s: ChunkedFileSource, fills: Seq<usize>, n: int)
    requires
        s.fills_valid(fills),
        0 <= n <= fills.len(),
    ensures
        s.fills_valid(fills.take(n)),
    decreases fills.len(),
{
    if n > 0 && fills.len() > 0 {
        assert(fills.take(n).drop_first() =~= fills.drop_first().take(n - 1));
        lemma_fills_valid_prefix(s.after_fill(fills[0]), fills.drop_first(), n - 1);
    }
}

/// Over any run of pulls in which each successful read fills no more than
/// the window the adapter advertised at that point, the bytes produced never
/// exceed the declared limit — at every point along the run, not only at its
/// end.
pub proof fn lemma_cap_invariant(s: ChunkedFileSource, fills: Seq<usize>)
    requires
        s.wf(),
        s.fills_valid(fills),
    ensures
        forall|n: int| 0 <= n <= fills.len() ==> s.after_fills(#[trigger] fills.take(n)).wf(),
{
    assert forall|n: int| 0 <= n <= fills.len() implies s.after_fills(
        #[trigger] fills.take(n),
    ).wf() by {
        lemma_fills_valid_prefix(s, fills, n);
        lemma_run_preserves_wf(s, fills.take(n));
    }
}

/// Copy the filled prefix of the scratch buffer into an owned chunk. Nothing
/// past the reported fill is read: the tail of the buffer may hold stale
/// bytes from an earlier pull.
pub fn chunk_from_filled(scratch: &Vec<u8>, filled: usize) -> (c: Vec<u8>)
    requires
        filled <= scratch@.len(),
    ensures
        c@ == scratch@.subrange(0, filled as int),
{
    let mut c: Vec<u8> = Vec::new();
    let mut i: usize = 0;
    while i < filled
        invariant
            filled <= scratch@.len(),
            i <= filled,
            c@ == scratch@.subrange(0, i as int),
        decreases filled - i,
    {
        c.push(scratch[i]);
        assert(c@ =~= scratch@.subrange(0, i as int + 1));
        i = i + 1;
    }
    c
}

} // verus!
