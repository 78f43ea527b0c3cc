//! The segment scheduler's decisions: which listed URLs to download and
//! in what order, what to do when the listing fails (filler injection and
//! backoff), and how long to sleep before the next poll, including the
//! program-boundary special case.
use vstd::prelude::*;
use vstd::multiset::Multiset;
use vstd::seq_lib::group_to_multiset_ensures;
use crate::timestamp::{last_pattern_idx, parse_timestamp, ts_at, Timestamp};

verus! {

/// A listed URL whose embedded timestamp parsed and is newer than the
/// session's emission cursor: scheduled for download.
pub struct Candidate {
    pub url: String,
    pub stamp: Timestamp,
}

impl Candidate {
    /// The mathematical content of a candidate: the identifier's
    /// characters and the parsed timestamp.
    pub open spec fn view_pair(self) -> (Seq<char>, Timestamp) {
        (self.url@, self.stamp)
    }
}

/// The mathematical content of a candidate list.
pub open spec fn view_pairs(s: Seq<Candidate>) -> Seq<(Seq<char>, Timestamp)> {
    s.map_values(|c: Candidate| c.view_pair())
}

/// The characters of each URL in a listing.
pub open spec fn char_views(urls: Seq<String>) -> Seq<Seq<char>> {
    urls.map_values(|u: String| u@)
}

/// The timestamp a segment identifier (given as the characters of its
/// URL) carries, if its last embedded stamp pattern denotes a real
/// calendar time.
pub open spec fn parsed_stamp(url: Seq<char>) -> Option<Timestamp> {
    let b = vstd::utf8::encode_utf8(url);
    if last_pattern_idx(b) >= 0 && ts_at(b, last_pattern_idx(b)).valid() {
        Some(ts_at(b, last_pattern_idx(b)))
    } else {
        None
    }
}

/// The candidates a listing yields against cursor `last`: each URL that
/// parses to a timestamp strictly newer than `last`, paired with that
/// timestamp, in listing order. Malformed identifiers are dropped here:
/// the segment cannot be ordered, the rest of the listing goes on.
pub open spec fn candidate_stamps(urls: Seq<Seq<char>>, last: u64) -> Seq<(Seq<char>, Timestamp)>
    decreases urls.len(),
{
    if urls.len() == 0 {
        Seq::empty()
    } else {
        let rest = candidate_stamps(urls.skip(1), last);
        match parsed_stamp(urls[0]) {
            Some(ts) => {
                if ts.spec_key() > last {
                    seq![(urls[0], ts)] + rest
                } else {
                    rest
                }
            },
            None => rest,
        }
    }
}

/// Keep the URLs whose stamp parses and is newer than `last_emitted`, in
/// listing order.
fn filter_new(urls: &Vec<String>, last_emitted: u64) -> (kept: Vec<Candidate>)
    ensures
        view_pairs(kept@) == candidate_stamps(char_views(urls@), last_emitted),
        forall|i: int|
            0 <= i < kept@.len() ==> kept@[i].stamp.spec_key() > last_emitted
                && kept@[i].stamp.valid(),
{
    let ghost all = char_views(urls@);
    let mut kept: Vec<Candidate> = Vec::new();
    let mut i: usize = 0;
    proof {
        assert(all.skip(0) =~= all);
        assert(view_pairs(kept@) =~= Seq::<(Seq<char>, Timestamp)>::empty());
        assert(view_pairs(kept@) + candidate_stamps(all, last_emitted) =~= candidate_stamps(
            all,
            last_emitted,
        ));
    }
    while i < urls.len()
        invariant
            i <= urls@.len(),
            all == char_views(urls@),
            view_pairs(kept@) + candidate_stamps(all.skip(i as int), last_emitted)
                == candidate_stamps(all, last_emitted),
            forall|k: int|
                0 <= k < kept@.len() ==> kept@[k].stamp.spec_key() > last_emitted
                    && kept@[k].stamp.valid(),
        decreases urls@.len() - i,
    {
        proof {
            assert(all.skip(i as int).skip(1) =~= all.skip(i + 1));
            assert(all.skip(i as int)[0] == urls@[i as int]@);
        }
        let ghost kept_before = kept@;
        let url = &urls[i];
        let stamp = parse_timestamp(url.as_str().as_bytes());
        match stamp {
            Some(ts) => {
                let key = ts.key();
                if key > last_emitted {
                    let c = Candidate { url: url.clone(), stamp: ts };
                    kept.push(c);
                    proof {
                        assert(view_pairs(kept@) =~= view_pairs(kept_before).push(
                            (urls@[i as int]@, ts),
                        ));
                        assert(view_pairs(kept_before).push((urls@[i as int]@, ts))
                            + candidate_stamps(all.skip(i + 1), last_emitted) =~= view_pairs(
                            kept_before,
                        ) + candidate_stamps(all.skip(i as int), last_emitted));
                    }
                }
            },
            None => {},
        }
        i += 1;
    }
    proof {
        assert(all.skip(urls@.len() as int) =~= Seq::<Seq<char>>::empty());
        assert(view_pairs(kept@) + candidate_stamps(all.skip(urls@.len() as int), last_emitted)
            =~= view_pairs(kept@));
    }
    kept
}

/// Candidate keys never decrease along the plan.
pub open spec fn sorted_by_stamp(plan: Seq<Candidate>) -> bool {
    forall|i: int, j: int|
        0 <= i < j < plan.len() ==> plan[i].stamp.spec_key() <= plan[j].stamp.spec_key()
}

/// Order the listing's new segments by their embedded timestamps: the
/// plan holds exactly the URLs whose stamp parses and is strictly newer
/// than `last_emitted`, sorted ascending by timestamp — playback order,
/// never listing order.
pub fn plan_downloads(urls: &Vec<String>, last_emitted: u64) -> (plan: Vec<Candidate>)
    ensures
        sorted_by_stamp(plan@),
        view_pairs(plan@).to_multiset() == candidate_stamps(
            char_views(urls@),
            last_emitted,
        ).to_multiset(),
        forall|i: int|
            0 <= i < plan@.len() ==> plan@[i].stamp.spec_key() > last_emitted
                && plan@[i].stamp.valid(),
{
    broadcast use group_to_multiset_ensures;
    broadcast use vstd::multiset::group_multiset_axioms;

    let mut input = filter_new(urls, last_emitted);
    let ghost cand = candidate_stamps(char_views(urls@), last_emitted);
    let mut plan: Vec<Candidate> = Vec::new();
    proof {
        assert(view_pairs(plan@) =~= Seq::<(Seq<char>, Timestamp)>::empty());
        assert(view_pairs(plan@).to_multiset() =~= Multiset::empty());
        assert(view_pairs(plan@).to_multiset().add(view_pairs(input@).to_multiset())
            =~= view_pairs(input@).to_multiset());
    }
    while input.len() > 0
        invariant
            view_pairs(plan@).to_multiset().add(view_pairs(input@).to_multiset())
                == cand.to_multiset(),
            sorted_by_stamp(plan@),
            forall|i: int, j: int|
                0 <= i < plan@.len() && 0 <= j < input@.len() ==> plan@[i].stamp.spec_key()
                    <= input@[j].stamp.spec_key(),
            forall|i: int|
                0 <= i < plan@.len() ==> plan@[i].stamp.spec_key() > last_emitted
                    && plan@[i].stamp.valid(),
            forall|i: int|
                0 <= i < input@.len() ==> input@[i].stamp.spec_key() > last_emitted
                    && input@[i].stamp.valid(),
        decreases input@.len(),
    {
        let mut min_idx: usize = 0;
        let mut k: usize = 1;
        while k < input.len()
            invariant
                min_idx < k <= input@.len(),
                forall|j: int|
                    0 <= j < k ==> input@[min_idx as int].stamp.spec_key()
                        <= input@[j].stamp.spec_key(),
            decreases input@.len() - k,
        {
            if input[k].stamp.key() < input[min_idx].stamp.key() {
                min_idx = k;
            }
            k += 1;
        }
        let ghost prev_input = input@;
        let ghost prev_plan = plan@;
        let chosen = input.remove(min_idx);
        plan.push(chosen);
        proof {
            let pm0 = view_pairs(prev_plan);
            let im0 = view_pairs(prev_input);
            pm0.to_multiset_ensures();
            im0.to_multiset_ensures();
            let fc = im0[min_idx as int];
            assert(fc == chosen.view_pair());
            assert(plan@ == prev_plan.push(chosen));
            assert(view_pairs(plan@) =~= pm0.push(fc));
            assert(pm0.push(fc).to_multiset() =~= pm0.to_multiset().insert(fc));
            assert(input@ == prev_input.remove(min_idx as int));
            assert(view_pairs(input@) =~= im0.remove(min_idx as int));
            assert(im0.remove(min_idx as int).to_multiset() =~= im0.to_multiset().remove(fc));
            assert(im0.contains(fc));
            assert(im0.to_multiset().count(fc) > 0);
            assert(view_pairs(plan@).to_multiset().add(view_pairs(input@).to_multiset())
                =~= pm0.to_multiset().add(im0.to_multiset()));
            assert forall|i: int, j: int|
                0 <= i < plan@.len() && 0 <= j < input@.len() implies plan@[i].stamp.spec_key()
                <= input@[j].stamp.spec_key() by {
                let jj = if j < min_idx { j } else { j + 1 };
                assert(input@[j] == prev_input[jj]);
                assert(chosen.stamp.spec_key() <= prev_input[jj].stamp.spec_key());
                if i < plan@.len() - 1 {
                    assert(prev_plan[i].stamp.spec_key() <= prev_input[jj].stamp.spec_key());
                }
            }
            assert forall|i: int, j: int|
                0 <= i < j < plan@.len() implies plan@[i].stamp.spec_key()
                <= plan@[j].stamp.spec_key() by {
                if j < plan@.len() - 1 {
                    assert(prev_plan[i].stamp.spec_key() <= prev_plan[j].stamp.spec_key());
                } else {
                    assert(prev_plan[i].stamp.spec_key() <= prev_input[min_idx as int]
                        .stamp.spec_key());
                }
            }
        }
    }
    plan
}

/// The scheduler's idle period when pacing has nothing better to say.
pub const BASE_POLL_MS: u64 = 5000;

/// Remainder of the base poll period after `elapsed_ms` of it was spent
/// fetching; a fetch that overran the period earns a full fresh period.
pub fn sleep(elapsed_ms: u64) -> (delay: u64)
    ensures
        delay == if elapsed_ms < BASE_POLL_MS {
            (BASE_POLL_MS - elapsed_ms) as u64
        } else {
            BASE_POLL_MS
        },
{
    if elapsed_ms < BASE_POLL_MS {
        BASE_POLL_MS - elapsed_ms
    } else {
        BASE_POLL_MS
    }
}

/// What the scheduler does before its next poll: maybe refresh the
/// program information first, then wait `delay_ms`.
#[derive(Clone, Copy, Debug, PartialEq, Eq, Structural)]
pub struct PollPlan {
    pub refresh_info: bool,
    pub delay_ms: u64,
}

/// Shrink the pacing delay when the current program's end is near, so the
/// info refresh fires exactly at the boundary: with the boundary due
/// within the base period, wait exactly the remaining time; with the
/// boundary already past, refresh immediately and fall back to normal
/// pacing; otherwise pace normally. Times are naive epoch milliseconds.
pub fn plan_delay(pacing_ms: u64, now_ms: i64, prog_end_ms: i64) -> (plan: PollPlan)
    requires
        -crate::feeder::MAX_NOW_EPOCH_MS <= now_ms <= crate::feeder::MAX_NOW_EPOCH_MS,
        -crate::feeder::MAX_NOW_EPOCH_MS <= prog_end_ms <= crate::feeder::MAX_NOW_EPOCH_MS,
    ensures
        ({
            let remaining = prog_end_ms - now_ms;
            if 0 <= remaining <= BASE_POLL_MS {
                plan == PollPlan { refresh_info: false, delay_ms: remaining as u64 }
            } else if remaining < 0 {
                plan == PollPlan { refresh_info: true, delay_ms: pacing_ms }
            } else {
                plan == PollPlan { refresh_info: false, delay_ms: pacing_ms }
            }
        }),
{
    let remaining: i64 = prog_end_ms - now_ms;
    if 0 <= remaining && remaining <= BASE_POLL_MS as i64 {
        PollPlan { refresh_info: false, delay_ms: remaining as u64 }
    } else if remaining < 0 {
        PollPlan { refresh_info: true, delay_ms: pacing_ms }
    } else {
        PollPlan { refresh_info: false, delay_ms: pacing_ms }
    }
}

/// How many filler clips the player ships.
pub const FILLER_CLIP_COUNT: usize = 6;

/// Below this many buffered bytes a failed listing is answered with a
/// filler clip, so the decoder keeps receiving something; above it the
/// buffer still holds plenty and nothing is injected.
pub const FILLER_BUFFER_THRESHOLD: usize = 82920;

/// Backoff before the next listing attempt after a failure.
pub const FILLER_BACKOFF_MS: u64 = 30000;

/// Relies on rand::random_range: a uniform draw from `0..6`; nothing is
/// promised of the value beyond its bound.
#[verifier::external_body]
pub fn rand() -> (r: usize)
    ensures
        r < FILLER_CLIP_COUNT,
{
    rand::random_range(0..6)
}

/// The listing fetch failed: decide whether to inject a filler clip, and
/// which. A clip — picked pseudo-randomly from the fixed rotation — is
/// injected exactly when the buffer has run low.
pub fn filler_plan(buffered: usize) -> (clip: Option<usize>)
    ensures
        clip is Some <==> buffered < FILLER_BUFFER_THRESHOLD,
        clip is Some ==> clip->0 < FILLER_CLIP_COUNT,
{
    if buffered < FILLER_BUFFER_THRESHOLD {
        Some(rand())
    } else {
        None
    }
}

/// Relies on std::time::SystemTime: milliseconds between the Unix epoch
/// and now. The clock decides the value, so nothing is promised of it.
#[verifier::external_body]
pub fn unix_epoch() -> u128 {
    match std::time::SystemTime::now().duration_since(std::time::UNIX_EPOCH) {
        Ok(elapsed) => elapsed.as_millis(),
        Err(_) => 0,
    }
}

} // verus!
