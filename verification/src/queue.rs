//! The segment queue between the scheduler (producer) and the playback
//! feeder (consumer). Within one station session the queue holds segments
//! in strictly increasing timestamp order; a station switch clears the
//! queue, resets the emission cursor, and bumps a generation counter so
//! that segments drained before the switch can be told apart from fresh
//! ones and discarded.
use vstd::prelude::*;
use crate::timestamp::Timestamp;

verus! {

/// One downloadable chunk of compressed audio: its source URL and its
/// payload bytes.
pub struct Playlist {
    pub url: String,
    pub buf: Vec<u8>,
}

/// A queued playlist entry together with its parsed timestamp and the
/// station-session generation it belongs to.
pub struct Segment {
    pub item: Playlist,
    pub stamp: Timestamp,
    pub generation: u64,
}

/// FIFO of segments plus the session cursor: the key of the last emitted
/// timestamp (0 while unset) and the current session generation.
pub struct SegmentQueue {
    entries: Vec<Segment>,
    last_stamp: u64,
    generation: u64,
}

impl SegmentQueue {
    /// The queued segments, oldest first.
    pub closed spec fn segments(&self) -> Seq<Segment> {
        self.entries@
    }

    /// Packed key of the last timestamp admitted this session, 0 if none.
    pub closed spec fn last_emitted(&self) -> u64 {
        self.last_stamp
    }

    /// The current station-session generation.
    pub closed spec fn current_generation(&self) -> u64 {
        self.generation
    }

    /// Queue invariant: timestamps strictly increase along the queue, no
    /// queued timestamp is newer than the emission cursor, and every
    /// queued segment belongs to the current session.
    pub open spec fn wf(&self) -> bool {
        &&& forall|i: int, j: int|
            0 <= i < j < self.segments().len() ==> self.segments()[i].stamp.spec_key()
                < self.segments()[j].stamp.spec_key()
        &&& forall|i: int|
            0 <= i < self.segments().len() ==> self.segments()[i].stamp.spec_key()
                <= self.last_emitted()
        &&& forall|i: int|
            0 <= i < self.segments().len() ==> self.segments()[i].generation
                == self.current_generation()
    }

    pub fn new() -> (q: Self)
        ensures
            q.wf(),
            q.segments() == Seq::<Segment>::empty(),
            q.last_emitted() == 0,
            q.current_generation() == 0,
    {
        SegmentQueue { entries: Vec::new(), last_stamp: 0, generation: 0 }
    }

    pub fn len(&self) -> (n: usize)
        ensures
            n == self.segments().len(),
    {
        self.entries.len()
    }

    /// The packed key of the last timestamp admitted this session, 0 if
    /// none yet.
    pub fn last_key(&self) -> (k: u64)
        ensures
            k == self.last_emitted(),
    {
        self.last_stamp
    }

    /// The current station-session generation.
    pub fn generation(&self) -> (g: u64)
        ensures
            g == self.current_generation(),
    {
        self.generation
    }

    /// Admit a segment only if its timestamp is strictly newer than the
    /// last one emitted this session; admission advances the cursor.
    /// Duplicates and regressions are dropped, which keeps the queue
    /// strictly increasing.
    pub fn try_push(&mut self, item: Playlist, stamp: Timestamp) -> (added: bool)
        requires
            old(self).wf(),
        ensures
            final(self).wf(),
            added == (stamp.spec_key() > old(self).last_emitted()),
            final(self).current_generation() == old(self).current_generation(),
            added ==> final(self).segments() == old(self).segments().push(
                Segment { item, stamp, generation: old(self).current_generation() },
            ),
            added ==> final(self).last_emitted() == stamp.spec_key(),
            !added ==> final(self).segments() == old(self).segments(),
            !added ==> final(self).last_emitted() == old(self).last_emitted(),
    {
        let key = stamp.key();
        if key > self.last_stamp {
            let generation = self.generation;
            self.entries.push(Segment { item, stamp, generation });
            self.last_stamp = key;
            proof {
                let s = self.segments();
                let prev = old(self).segments();
                assert forall|i: int, j: int|
                    0 <= i < j < s.len() implies s[i].stamp.spec_key()
                    < s[j].stamp.spec_key() by {
                    if j < s.len() - 1 {
                        assert(prev[i].stamp.spec_key() < prev[j].stamp.spec_key());
                        assert(s[i] == prev[i] && s[j] == prev[j]);
                    } else {
                        assert(prev[i].stamp.spec_key() <= old(self).last_emitted());
                        assert(s[i] == prev[i]);
                    }
                }
            }
            true
        } else {
            false
        }
    }

    /// Station switch: drop the backlog, reset the emission cursor, and
    /// open a new session generation.
    pub fn switch_station(&mut self)
        requires
            old(self).current_generation() < u64::MAX,
        ensures
            final(self).wf(),
            final(self).segments() == Seq::<Segment>::empty(),
            final(self).last_emitted() == 0,
            final(self).current_generation() == old(self).current_generation() + 1,
    {
        self.entries = Vec::new();
        self.last_stamp = 0;
        self.generation = self.generation + 1;
    }

    /// Hand the whole backlog to the feeder, oldest first, leaving the
    /// cursor and the generation in place.
    pub fn drain(&mut self) -> (out: Vec<Segment>)
        requires
            old(self).wf(),
        ensures
            final(self).wf(),
            out@ == old(self).segments(),
            final(self).segments() == Seq::<Segment>::empty(),
            final(self).last_emitted() == old(self).last_emitted(),
            final(self).current_generation() == old(self).current_generation(),
    {
        let mut out: Vec<Segment> = Vec::new();
        while self.entries.len() > 0
            invariant
                out@ + self.entries@ == old(self).entries@,
                self.last_stamp == old(self).last_stamp,
                self.generation == old(self).generation,
            decreases self.entries@.len(),
        {
            let seg = self.entries.remove(0);
            out.push(seg);
        }
        proof {
            assert(out@ =~= old(self).segments());
        }
        out
    }
}

/// Does a drained segment still belong to the current session? The feeder
/// discards any segment whose generation predates the switch.
pub fn accept(seg: &Segment, current_generation: u64) -> (r: bool)
    ensures
        r == (seg.generation == current_generation),
{
    seg.generation == current_generation
}

/// Within one station session the queue's timestamps strictly increase:
/// no duplicate and no regression ever stands in the backlog, so the
/// batch handed to the feeder is strictly increasing as well.
pub proof fn lemma_session_stamps_strictly_increase(q: &SegmentQueue)
    requires
        q.wf(),
    ensures
        forall|i: int, j: int|
            0 <= i < j < q.segments().len() ==> q.segments()[i].stamp.spec_key()
                < q.segments()[j].stamp.spec_key(),
{
}

/// After a station switch completes, nothing tagged with an earlier
/// session generation is queued any longer, so a stale segment can reach
/// the ring buffer only through `accept`, which rejects it.
pub proof fn lemma_stale_generation_rejected(q: &SegmentQueue, seg: Segment)
    requires
        q.wf(),
        seg.generation < q.current_generation(),
    ensures
        !q.segments().contains(seg),
        seg.generation != q.current_generation(),
{
    assert forall|i: int| 0 <= i < q.segments().len() implies q.segments()[i] != seg by {
        assert(q.segments()[i].generation == q.current_generation());
    }
}

} // verus!
