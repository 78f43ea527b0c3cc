//! The playback feeder's per-segment step: a drained segment that still
//! belongs to the current station session has its payload appended to the
//! ring buffer, and a pacing sample `(occupancy after the append, how
//! stale the segment already is)` is recorded; a segment from an earlier
//! session generation is discarded untouched, so audio from the previous
//! station never re-enters the pipeline after a switch.
use vstd::prelude::*;
use crate::pacing::{record_window, StateCollector};
use crate::queue::Segment;
use crate::ring::StreamPipe;

verus! {

/// Largest naive-time value in epoch milliseconds the feeder accepts for
/// "now"; far beyond year 9999, present only to rule out overflow.
pub const MAX_NOW_EPOCH_MS: i64 = 0x7fff_ffff_ffff;

/// The pacing sample a segment produces: the ring-buffer occupancy after
/// its payload is appended, and the segment's arrival latency in
/// milliseconds against `now`.
pub open spec fn sample_of(
    pipe_len_after: int,
    now_epoch_ms: int,
    seg: Segment,
) -> (i64, i64) {
    (pipe_len_after as i64, (now_epoch_ms - seg.stamp.spec_epoch_seconds() * 1000) as i64)
}

/// Feed one drained segment. Returns whether the segment was accepted:
/// exactly when its generation matches the current session.
pub fn feed_segment(
    pipe: &mut StreamPipe,
    stat: &mut StateCollector,
    seg: &Segment,
    now_epoch_ms: i64,
    current_generation: u64,
) -> (fed: bool)
    requires
        old(stat).wf(),
        seg.stamp.valid(),
        -MAX_NOW_EPOCH_MS <= now_epoch_ms <= MAX_NOW_EPOCH_MS,
        old(pipe).contents().len() + seg.item.buf@.len() <= i64::MAX,
    ensures
        final(stat).wf(),
        fed == (seg.generation == current_generation),
        fed ==> final(pipe).contents() == old(pipe).contents() + seg.item.buf@,
        fed ==> final(stat).window() == old(stat).window().skip(1).push(
            sample_of(
                old(pipe).contents().len() + seg.item.buf@.len() as int,
                now_epoch_ms as int,
                *seg,
            ),
        ),
        fed ==> final(stat).samples() == vstd::math::min(old(stat).samples() as int + 1, 4),
        !fed ==> *final(pipe) == *old(pipe) && *final(stat) == *old(stat),
        final(pipe).total_read() == old(pipe).total_read(),
        final(pipe).total_discarded() == old(pipe).total_discarded(),
        old(pipe).wf() ==> final(pipe).wf(),
    {
    if seg.generation != current_generation {
        return false;
    }
    pipe.add(seg.item.buf.as_slice());
    let occupancy = pipe.len() as i64;
    let seg_ms: i64 = seg.stamp.epoch_seconds() * 1000;
    let latency: i64 = now_epoch_ms - seg_ms;
    stat.add(occupancy, latency);
    true
}

/// Total payload bytes of a drained batch, every generation counted.
pub open spec fn total_len(segs: Seq<Segment>) -> int
    decreases segs.len(),
{
    if segs.len() == 0 {
        0
    } else {
        total_len(segs.drop_last()) + segs.last().item.buf@.len()
    }
}

/// The bytes a drained batch adds to the ring buffer: the payloads of the
/// segments of the current session, in drain order.
pub open spec fn accepted_payload(segs: Seq<Segment>, generation: u64) -> Seq<u8>
    decreases segs.len(),
{
    if segs.len() == 0 {
        Seq::empty()
    } else {
        accepted_payload(segs.drop_last(), generation) + (if segs.last().generation
            == generation {
            segs.last().item.buf@
        } else {
            Seq::empty()
        })
    }
}

/// The pacing samples a drained batch records, in drain order: one per
/// accepted segment, with the occupancy the buffer reaches right after
/// that segment's payload lands on top of `base_len` unread bytes.
pub open spec fn batch_samples(
    segs: Seq<Segment>,
    generation: u64,
    now_epoch_ms: int,
    base_len: int,
) -> Seq<(i64, i64)>
    decreases segs.len(),
{
    if segs.len() == 0 {
        Seq::empty()
    } else {
        batch_samples(segs.drop_last(), generation, now_epoch_ms, base_len) + (if segs.last()
            .generation == generation {
            seq![
                sample_of(
                    base_len + accepted_payload(segs, generation).len(),
                    now_epoch_ms,
                    segs.last(),
                ),
            ]
        } else {
            Seq::empty()
        })
    }
}

/// The accepted payload never outweighs the whole batch.
proof fn lemma_accepted_within_total(segs: Seq<Segment>, generation: u64)
    ensures
        accepted_payload(segs, generation).len() <= total_len(segs),
    decreases segs.len(),
{
    if segs.len() > 0 {
        lemma_accepted_within_total(segs.drop_last(), generation);
    }
}

/// A prefix of the batch carries at most the whole batch's bytes.
proof fn lemma_total_len_prefix(segs: Seq<Segment>, i: int)
    requires
        0 <= i <= segs.len(),
    ensures
        total_len(segs.take(i)) <= total_len(segs),
    decreases segs.len() - i,
{
    if i < segs.len() {
        assert(segs.take(i + 1).drop_last() =~= segs.take(i));
        assert(segs.take(i + 1).last() == segs[i]);
        lemma_total_len_prefix(segs, i + 1);
    } else {
        assert(segs.take(i) =~= segs);
    }
}

/// Recording one more sample moves the whole fold one slot along.
proof fn lemma_record_window_push(w0: Seq<(i64, i64)>, samples: Seq<(i64, i64)>, s: (i64, i64))
    ensures
        record_window(w0, samples.push(s)) == record_window(w0, samples).skip(1).push(s),
    decreases samples.len(),
{
    if samples.len() == 0 {
        assert(samples.push(s)[0] == s);
        assert(samples.push(s).skip(1) =~= Seq::<(i64, i64)>::empty());
        assert(record_window(w0, samples.push(s)) == record_window(
            w0.skip(1).push(s),
            samples.push(s).skip(1),
        ));
        assert(record_window(w0, samples) == w0);
    } else {
        let w1 = w0.skip(1).push(samples[0]);
        assert(samples.push(s)[0] == samples[0]);
        assert(samples.push(s).skip(1) =~= samples.skip(1).push(s));
        assert(record_window(w0, samples.push(s)) == record_window(
            w1,
            samples.push(s).skip(1),
        ));
        assert(record_window(w0, samples) == record_window(w1, samples.skip(1)));
        lemma_record_window_push(w1, samples.skip(1), s);
    }
}

/// Feed one drained batch, oldest segment first — the feeder drains the
/// entire backlog each wake. The buffer gains exactly the payloads of the
/// current session's segments in order; each accepted segment records one
/// pacing sample; segments of older generations leave no trace. Returns
/// how many segments were accepted.
pub fn feed_all(
    pipe: &mut StreamPipe,
    stat: &mut StateCollector,
    segs: &Vec<Segment>,
    now_epoch_ms: i64,
    current_generation: u64,
) -> (fed: usize)
    requires
        old(stat).wf(),
        forall|i: int| 0 <= i < segs@.len() ==> segs@[i].stamp.valid(),
        -MAX_NOW_EPOCH_MS <= now_epoch_ms <= MAX_NOW_EPOCH_MS,
        old(pipe).contents().len() + total_len(segs@) <= i64::MAX,
    ensures
        final(stat).wf(),
        fed <= segs@.len(),
        final(pipe).contents() == old(pipe).contents() + accepted_payload(
            segs@,
            current_generation,
        ),
        final(stat).window() == record_window(
            old(stat).window(),
            batch_samples(
                segs@,
                current_generation,
                now_epoch_ms as int,
                old(pipe).contents().len() as int,
            ),
        ),
        final(pipe).total_read() == old(pipe).total_read(),
        final(pipe).total_discarded() == old(pipe).total_discarded(),
        old(pipe).wf() ==> final(pipe).wf(),
{
    let ghost base_len = old(pipe).contents().len() as int;
    let mut fed: usize = 0;
    let mut i: usize = 0;
    proof {
        assert(segs@.take(0) =~= Seq::<Segment>::empty());
        assert(old(pipe).contents() + accepted_payload(segs@.take(0), current_generation)
            =~= old(pipe).contents());
    }
    while i < segs.len()
        invariant
            i <= segs@.len(),
            fed <= i,
            stat.wf(),
            forall|k: int| 0 <= k < segs@.len() ==> segs@[k].stamp.valid(),
            -MAX_NOW_EPOCH_MS <= now_epoch_ms <= MAX_NOW_EPOCH_MS,
            base_len == old(pipe).contents().len(),
            base_len + total_len(segs@) <= i64::MAX,
            pipe.contents() == old(pipe).contents() + accepted_payload(
                segs@.take(i as int),
                current_generation,
            ),
            stat.window() == record_window(
                old(stat).window(),
                batch_samples(segs@.take(i as int), current_generation, now_epoch_ms as int, base_len),
            ),
            pipe.total_read() == old(pipe).total_read(),
            pipe.total_discarded() == old(pipe).total_discarded(),
            old(pipe).wf() ==> pipe.wf(),
        decreases segs@.len() - i,
    {
        proof {
            assert(segs@.take(i + 1).drop_last() =~= segs@.take(i as int));
            assert(segs@.take(i + 1).last() == segs@[i as int]);
            lemma_accepted_within_total(segs@.take(i as int), current_generation);
            lemma_total_len_prefix(segs@, i + 1);
            assert(total_len(segs@.take(i + 1)) == total_len(segs@.take(i as int))
                + segs@[i as int].item.buf@.len());
        }
        let ghost pipe_before = pipe.contents();
        let ghost window_before = stat.window();
        let seg = &segs[i];
        let was_fed = feed_segment(pipe, stat, seg, now_epoch_ms, current_generation);
        proof {
            let taken = segs@.take(i + 1);
            if was_fed {
                assert(accepted_payload(taken, current_generation) =~= accepted_payload(
                    segs@.take(i as int),
                    current_generation,
                ) + segs@[i as int].item.buf@);
                assert(pipe.contents() =~= old(pipe).contents() + accepted_payload(
                    taken,
                    current_generation,
                ));
                let sample = sample_of(
                    base_len + accepted_payload(taken, current_generation).len(),
                    now_epoch_ms as int,
                    segs@[i as int],
                );
                assert(batch_samples(taken, current_generation, now_epoch_ms as int, base_len)
                    =~= batch_samples(
                    segs@.take(i as int),
                    current_generation,
                    now_epoch_ms as int,
                    base_len,
                ).push(sample));
                lemma_record_window_push(
                    old(stat).window(),
                    batch_samples(
                        segs@.take(i as int),
                        current_generation,
                        now_epoch_ms as int,
                        base_len,
                    ),
                    sample,
                );
            } else {
                assert(accepted_payload(taken, current_generation) =~= accepted_payload(
                    segs@.take(i as int),
                    current_generation,
                ) + Seq::<u8>::empty());
                assert(pipe.contents() =~= old(pipe).contents() + accepted_payload(
                    taken,
                    current_generation,
                ));
                assert(batch_samples(taken, current_generation, now_epoch_ms as int, base_len)
                    =~= batch_samples(
                    segs@.take(i as int),
                    current_generation,
                    now_epoch_ms as int,
                    base_len,
                ));
            }
        }
        if was_fed {
            fed += 1;
        }
        i += 1;
    }
    proof {
        assert(segs@.take(segs@.len() as int) =~= segs@);
    }
    fed
}

} // verus!
