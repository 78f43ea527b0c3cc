//! Byte FIFO bridging the playback feeder (writer) and the audio decoder
//! (reader). Appends go at the tail, reads consume from the head, and a
//! read on an empty pipe returns no bytes rather than an error.
use vstd::prelude::*;

verus! {

/// Unread bytes in arrival order, together with ghost accounting of every
/// byte that ever entered or left the pipe.
pub struct StreamPipe {
    buffer: Vec<u8>,
    appended: Ghost<nat>,
    consumed: Ghost<nat>,
    discarded: Ghost<nat>,
}

impl StreamPipe {
    /// The unread bytes, head first.
    pub closed spec fn contents(&self) -> Seq<u8> {
        self.buffer@
    }

    /// Total bytes ever appended.
    pub closed spec fn total_appended(&self) -> nat {
        self.appended@
    }

    /// Total bytes ever handed out by `read`.
    pub closed spec fn total_read(&self) -> nat {
        self.consumed@
    }

    /// Total bytes dropped by `clear` without being read.
    pub closed spec fn total_discarded(&self) -> nat {
        self.discarded@
    }

    /// Every byte appended is still buffered, was read, or was discarded.
    pub open spec fn wf(&self) -> bool {
        self.total_read() + self.total_discarded() + self.contents().len()
            == self.total_appended()
    }

    pub fn new() -> (pipe: Self)
        ensures
            pipe.wf(),
            pipe.contents() == Seq::<u8>::empty(),
            pipe.total_appended() == 0,
            pipe.total_read() == 0,
            pipe.total_discarded() == 0,
    {
        StreamPipe {
            buffer: Vec::new(),
            appended: Ghost(0),
            consumed: Ghost(0),
            discarded: Ghost(0),
        }
    }

    /// Number of unread bytes.
    pub fn len(&self) -> (n: usize)
        ensures
            n == self.contents().len(),
    {
        self.buffer.len()
    }

    /// Append `data` at the tail. Growth is unconditional: backpressure is
    /// the pacing controller's job, not the pipe's.
    pub fn add(&mut self, data: &[u8])
        ensures
            final(self).contents() == old(self).contents() + data@,
            final(self).total_appended() == old(self).total_appended() + data@.len(),
            final(self).total_read() == old(self).total_read(),
            final(self).total_discarded() == old(self).total_discarded(),
            old(self).wf() ==> final(self).wf(),
    {
        let mut i: usize = 0;
        while i < data.len()
            invariant
                i <= data@.len(),
                self.buffer@ == old(self).buffer@ + data@.subrange(0, i as int),
                self.appended == old(self).appended,
                self.consumed == old(self).consumed,
                self.discarded == old(self).discarded,
            decreases data@.len() - i,
        {
            let b = data[i];
            self.buffer.push(b);
            i += 1;
        }
        proof {
            assert(data@.subrange(0, data@.len() as int) =~= data@);
        }
        self.appended = Ghost(self.appended@ + data@.len());
    }

    /// Drop every unread byte (station switch / forced resync).
    pub fn clear(&mut self)
        ensures
            final(self).contents() == Seq::<u8>::empty(),
            final(self).total_appended() == old(self).total_appended(),
            final(self).total_read() == old(self).total_read(),
            final(self).total_discarded() == old(self).total_discarded()
                + old(self).contents().len(),
            old(self).wf() ==> final(self).wf(),
    {
        self.discarded = Ghost(self.discarded@ + self.buffer@.len());
        self.buffer = Vec::new();
    }

    /// Copy up to `max_len` bytes from the head, remove them, and return
    /// them. An empty pipe yields an empty result, never an error, and the
    /// call never blocks.
    pub fn read(&mut self, max_len: usize) -> (out: Vec<u8>)
        ensures
            out@ == old(self).contents().take(
                vstd::math::min(max_len as int, old(self).contents().len() as int),
            ),
            final(self).contents() == old(self).contents().skip(out@.len() as int),
            final(self).total_read() == old(self).total_read() + out@.len(),
            final(self).total_appended() == old(self).total_appended(),
            final(self).total_discarded() == old(self).total_discarded(),
            old(self).contents().len() == 0 ==> out@.len() == 0,
            old(self).wf() ==> final(self).wf(),
    {
        let n = if max_len < self.buffer.len() {
            max_len
        } else {
            self.buffer.len()
        };
        let mut out: Vec<u8> = Vec::new();
        let mut i: usize = 0;
        while i < n
            invariant
                i <= n <= self.buffer@.len(),
                self == old(self),
                out@ == self.buffer@.subrange(0, i as int),
            decreases n - i,
        {
            out.push(self.buffer[i]);
            i += 1;
        }
        let mut rest: Vec<u8> = Vec::new();
        let mut j: usize = n;
        while j < self.buffer.len()
            invariant
                n <= j <= self.buffer@.len(),
                self == old(self),
                rest@ == self.buffer@.subrange(n as int, j as int),
            decreases self.buffer@.len() - j,
        {
            rest.push(self.buffer[j]);
            j += 1;
        }
        proof {
            assert(out@ =~= old(self).contents().take(
                vstd::math::min(max_len as int, old(self).contents().len() as int),
            ));
            assert(rest@ =~= old(self).contents().skip(n as int));
        }
        self.buffer = rest;
        self.consumed = Ghost(self.consumed@ + out@.len());
        out
    }
}

/// Over any sequence of `append` and `read` calls, the total number of
/// bytes read never exceeds the total number of bytes appended: every
/// operation preserves `wf`, and `wf` bounds the read counter.
pub proof fn lemma_read_never_exceeds_appended(pipe: &StreamPipe)
    requires
        pipe.wf(),
    ensures
        pipe.total_read() <= pipe.total_appended(),
{
}

} // verus!
