//! A response body that hands out an in-memory byte source in chunks.
use vstd::prelude::*;

verus! {

/// The chunks that a source of bytes is cut into: each holds `n` bytes but
/// the last, which holds what is left.
pub open spec fn chunks_of(s: Seq<u8>, n: nat) -> Seq<Seq<u8>>
    decreases s.len(),
{
    if s.len() == 0 || n == 0 {
        seq![]
    } else if s.len() <= n {
        seq![s]
    } else {
        seq![s.take(n as int)] + chunks_of(s.skip(n as int), n)
    }
}

/// Chunks laid one after the other.
pub open spec fn concat_chunks(cs: Seq<Seq<u8>>) -> Seq<u8>
    decreases cs.len(),
{
    if cs.len() == 0 {
        seq![]
    } else {
        cs[0] + concat_chunks(cs.drop_first())
    }
}

/// Laying out the chunks of any source, whatever the chunk size, gives the
/// source back: in order, with nothing missing or repeated; no chunk is empty
/// and none is longer than the chunk size.
pub proof fn lemma_chunks_round_trip(s: Seq<u8>, n: nat)
    requires
        n > 0,
    ensures
        concat_chunks(chunks_of(s, n)) == s,
        forall|i: int|
            0 <= i < chunks_of(s, n).len() ==> 0 < #[trigger] chunks_of(s, n)[i].len() <= n,
    decreases s.len(),
{
    if s.len() == 0 {
        assert(s =~= seq![]);
    } else if s.len() <= n {
        let cs = chunks_of(s, n);
        assert(cs.drop_first() =~= seq![]);
        assert(concat_chunks(cs.drop_first()) == Seq::<u8>::empty());
        assert(s + seq![] =~= s);
    } else {
        let rest = s.skip(n as int);
        lemma_chunks_round_trip(rest, n);
        let cs = chunks_of(s, n);
        assert(cs.drop_first() =~= chunks_of(rest, n));
        assert(s.take(n as int) + rest =~= s);
        assert(concat_chunks(cs) == cs[0] + concat_chunks(cs.drop_first()));
        assert forall|i: int| 0 <= i < cs.len() implies 0 < #[trigger] cs[i].len() <= n by {
            if i > 0 {
                assert(cs[i] == chunks_of(rest, n)[i - 1]);
            }
        }
    }
}

/// Adapter that serves a byte slice as a sequence of chunks of a fixed size.
#[derive(Debug)]
pub struct AsyncReadBody {
    source: &'static [u8],
    pos: usize,
    capacity: usize,
}

impl AsyncReadBody {
    /// The bytes not handed out yet.
    pub closed spec fn remaining(&self) -> Seq<u8> {
        self.source@.skip(self.pos as int)
    }

    /// The most bytes one chunk holds.
    pub closed spec fn chunk_size(&self) -> nat {
        self.capacity as nat
    }

    pub closed spec fn cursor_ok(&self) -> bool {
        self.pos <= self.source@.len()
    }

    /// The cursor lies within the source, and chunks are not empty.
    pub open spec fn wf(&self) -> bool {
        self.cursor_ok() && self.chunk_size() > 0
    }

    /// The number of bytes not handed out yet.
    pub fn remaining_len(&self) -> (r: usize)
        requires
            self.wf(),
        ensures
            r == self.remaining().len(),
    {
        self.source.len() - self.pos
    }

    /// Create a body over the given bytes, handed out `capacity` bytes at a time.
    pub fn with_capacity(read: &'static [u8], capacity: usize) -> (r: Self)
        requires
            capacity > 0,
        ensures
            r.wf(),
            r.remaining() == read@,
            r.chunk_size() == capacity,
    {
        let r = AsyncReadBody { source: read, pos: 0, capacity };
        assert(r.source@.skip(0) =~= read@);
        r
    }

    /// The next chunk, or `None` once every byte has been handed out (and on
    /// every call after that).
    pub fn poll_frame(&mut self) -> (r: Option<Vec<u8>>)
        requires
            old(self).wf(),
        ensures
            final(self).wf(),
            final(self).chunk_size() == old(self).chunk_size(),
            r is None <==> old(self).remaining().len() == 0,
            r is None ==> final(self).remaining() == old(self).remaining(),
            r matches Some(c) ==> chunks_of(old(self).remaining(), old(self).chunk_size())
                == seq![c@] + chunks_of(final(self).remaining(), final(self).chunk_size()),
    {
        let len = self.source.len();
        if self.pos >= len {
            return None;
        }
        let start = self.pos;
        let end: usize = if len - start <= self.capacity {
            len
        } else {
            start + self.capacity
        };
        let mut out: Vec<u8> = Vec::new();
        let mut i: usize = start;
        while i < end
            invariant
                start <= i <= end <= len,
                len == self.source@.len(),
                out@ == self.source@.subrange(start as int, i as int),
            decreases end - i,
        {
            out.push(self.source[i]);
            i = i + 1;
            assert(out@ =~= self.source@.subrange(start as int, i as int));
        }
        self.pos = end;
        proof {
            let rem = self.source@.skip(start as int);
            let n = self.capacity as nat;
            if rem.len() <= n {
                assert(out@ =~= rem);
                assert(self.source@.skip(end as int) =~= seq![]);
                assert(seq![rem] + seq![] =~= seq![rem]);
            } else {
                assert(out@ =~= rem.take(n as int));
                assert(self.source@.skip(end as int) =~= rem.skip(n as int));
            }
        }
        Some(out)
    }
}

} // verus!
