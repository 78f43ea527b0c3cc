//! Text extraction over fetched pages: pick the lines in which a marker
//! occurs, then pull out the spans standing between quotation marks. The
//! markers and the quotes are single ASCII bytes, so byte-level scanning
//! splits UTF-8 text exactly as character-level scanning would.
use vstd::prelude::*;
use crate::lines::{byte_views, lines_containing, matching_lines, split_lines};

verus! {

/// The spans of `s[cur..]` standing between an odd and the following even
/// occurrence of the quote byte `q`. `open` is the position right after
/// the unmatched opening quote, or -1 outside a quoted span; a span still
/// open at the end of the text captures nothing.
pub open spec fn spans_from(s: Seq<u8>, q: u8, cur: int, open: int) -> Seq<Seq<u8>>
    decreases s.len() - cur,
{
    if cur < 0 || cur >= s.len() {
        Seq::empty()
    } else if s[cur] == q {
        if open < 0 {
            spans_from(s, q, cur + 1, cur + 1)
        } else {
            seq![s.subrange(open, cur)] + spans_from(s, q, cur + 1, -1)
        }
    } else {
        spans_from(s, q, cur + 1, open)
    }
}

/// The quoted spans of `s`: what stands between the first and second
/// occurrence of `q`, the third and fourth, and so on.
pub open spec fn quoted_spans(s: Seq<u8>, q: u8) -> Seq<Seq<u8>> {
    spans_from(s, q, 0, -1)
}

/// The spans of `line` standing between pairs of the quote byte `q`.
pub fn extract_spans(line: &Vec<u8>, q: u8) -> (out: Vec<Vec<u8>>)
    ensures
        byte_views(out@) == quoted_spans(line@, q),
{
    let mut out: Vec<Vec<u8>> = Vec::new();
    let mut cur: Vec<u8> = Vec::new();
    let mut inside = false;
    let mut i: usize = 0;
    proof {
        assert(byte_views(out@) =~= Seq::<Seq<u8>>::empty());
        assert(byte_views(out@) + spans_from(line@, q, 0, -1) =~= quoted_spans(line@, q));
    }
    while i < line.len()
        invariant
            cur@.len() <= i <= line@.len(),
            !inside ==> cur@.len() == 0,
            inside ==> cur@ == line@.subrange(i - cur@.len(), i as int),
            byte_views(out@) + spans_from(
                line@,
                q,
                i as int,
                if inside {
                    i - cur@.len()
                } else {
                    -1
                },
            ) == quoted_spans(line@, q),
        decreases line@.len() - i,
    {
        let ghost out_before = out@;
        let ghost start = i - cur@.len();
        let b = line[i];
        if b == q {
            if inside {
                proof {
                    assert(cur@ =~= line@.subrange(start, i as int));
                }
                out.push(cur);
                cur = Vec::new();
                inside = false;
                proof {
                    assert(byte_views(out@) =~= byte_views(out_before).push(
                        line@.subrange(start, i as int),
                    ));
                    assert(byte_views(out_before).push(line@.subrange(start, i as int))
                        + spans_from(line@, q, i + 1, -1) =~= byte_views(out_before) + (seq![
                        line@.subrange(start, i as int),
                    ] + spans_from(line@, q, i + 1, -1)));
                }
            } else {
                inside = true;
                proof {
                    assert(cur@ =~= line@.subrange(i + 1, i + 1));
                }
            }
        } else {
            if inside {
                cur.push(b);
                proof {
                    assert(cur@ =~= line@.subrange(start, i + 1));
                }
            }
        }
        i += 1;
    }
    out
}

/// A scanner over one fetched page: the page's bytes, and the lines the
/// last search selected.
pub struct QuoteUtil {
    pub txt: Vec<u8>,
    pub res: Vec<Vec<u8>>,
}

impl QuoteUtil {
    /// A scanner over `txt` with nothing selected yet.
    pub fn new(txt: &[u8]) -> (u: Self)
        ensures
            u.txt@ == txt@,
            u.res@.len() == 0,
    {
        let mut owned: Vec<u8> = Vec::new();
        let mut i: usize = 0;
        while i < txt.len()
            invariant
                i <= txt@.len(),
                owned@ == txt@.subrange(0, i as int),
            decreases txt@.len() - i,
        {
            owned.push(txt[i]);
            i += 1;
        }
        proof {
            assert(txt@.subrange(0, txt@.len() as int) =~= txt@);
        }
        QuoteUtil { txt: owned, res: Vec::new() }
    }

    /// A scanner holding the lines of this page in which `key` occurs.
    pub fn find_all(&self, key: &[u8]) -> (u: Self)
        ensures
            byte_views(u.res@) == matching_lines(split_lines(self.txt@), key@),
            u.txt@.len() == 0,
    {
        let res = lines_containing(self.txt.as_slice(), key);
        QuoteUtil { txt: Vec::new(), res }
    }

    /// For each selected line, the spans standing between pairs of the
    /// quote byte `q`.
    pub fn strip_quote(&self, q: u8) -> (out: Vec<Vec<Vec<u8>>>)
        ensures
            out@.len() == self.res@.len(),
            forall|i: int|
                0 <= i < out@.len() ==> byte_views(out@[i]@) == quoted_spans(self.res@[i]@, q),
    {
        let mut out: Vec<Vec<Vec<u8>>> = Vec::new();
        let mut i: usize = 0;
        while i < self.res.len()
            invariant
                i <= self.res@.len(),
                out@.len() == i,
                forall|k: int|
                    0 <= k < i ==> byte_views(out@[k]@) == quoted_spans(self.res@[k]@, q),
            decreases self.res@.len() - i,
        {
            let spans = extract_spans(&self.res[i], q);
            out.push(spans);
            i += 1;
        }
        out
    }
}

} // verus!
