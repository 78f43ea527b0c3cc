//! Line-oriented text filtering over bytes: splitting a fetched body on
//! newlines, substring search, and the media-list rule "keep the lines
//! that carry a stream URL". The delimiters are single ASCII bytes, so
//! byte-level scanning splits UTF-8 text exactly as character-level
//! scanning would.
use vstd::prelude::*;

verus! {

/// `pat` occurs in `s` starting at position `i`.
pub open spec fn match_at(s: Seq<u8>, pat: Seq<u8>, i: int) -> bool {
    &&& 0 <= i
    &&& i + pat.len() <= s.len()
    &&& forall|k: int| 0 <= k < pat.len() ==> s[i + k] == pat[k]
}

/// `pat` occurs somewhere in `s`.
pub open spec fn contains_sub(s: Seq<u8>, pat: Seq<u8>) -> bool {
    exists|i: int| match_at(s, pat, i)
}

/// The lines of `s[start..]`, already scanned up to `cur`, split on
/// newline bytes. Splitting keeps empty lines and yields one final line
/// after the last newline, as the ordinary line splitting does.
pub open spec fn split_lines_from(s: Seq<u8>, start: int, cur: int) -> Seq<Seq<u8>>
    decreases s.len() - cur,
{
    if cur < 0 || cur >= s.len() {
        seq![s.subrange(start, s.len() as int)]
    } else if s[cur] == 10 {
        seq![s.subrange(start, cur)] + split_lines_from(s, cur + 1, cur + 1)
    } else {
        split_lines_from(s, start, cur + 1)
    }
}

/// The lines of `s`, split on newline bytes.
pub open spec fn split_lines(s: Seq<u8>) -> Seq<Seq<u8>> {
    split_lines_from(s, 0, 0)
}

/// The lines among `lines` in which `key` occurs, in order.
pub open spec fn matching_lines(lines: Seq<Seq<u8>>, key: Seq<u8>) -> Seq<Seq<u8>>
    decreases lines.len(),
{
    if lines.len() == 0 {
        Seq::empty()
    } else {
        let rest = matching_lines(lines.skip(1), key);
        if contains_sub(lines[0], key) {
            seq![lines[0]] + rest
        } else {
            rest
        }
    }
}

/// The byte sequences a vector of byte vectors holds.
pub open spec fn byte_views(v: Seq<Vec<u8>>) -> Seq<Seq<u8>> {
    v.map_values(|b: Vec<u8>| b@)
}

/// Does `key` occur in `line`?
pub fn contains_key(line: &Vec<u8>, key: &[u8]) -> (r: bool)
    ensures
        r == contains_sub(line@, key@),
{
    if key.len() > line.len() {
        assert forall|i: int| !match_at(line@, key@, i) by {
            if 0 <= i && i + key@.len() <= line@.len() {
                assert(false);
            }
        }
        return false;
    }
    let mut i: usize = 0;
    let last = line.len() - key.len();
    while i <= last
        invariant
            line@.len() - key@.len() == last,
            line@.len() <= usize::MAX,
            i <= last + 1,
            forall|p: int| 0 <= p < i ==> !match_at(line@, key@, p),
        decreases last - i + 1,
    {
        let mut k: usize = 0;
        let mut hit = true;
        while k < key.len()
            invariant
                k <= key@.len(),
                i + key@.len() <= line@.len() <= usize::MAX,
                hit ==> forall|q: int| 0 <= q < k ==> line@[i + q] == key@[q],
                !hit ==> !match_at(line@, key@, i as int),
            decreases key@.len() - k,
        {
            if line[i + k] != key[k] {
                proof {
                    assert(line@[i + k as int] != key@[k as int]);
                }
                hit = false;
                k = key.len();
            } else {
                k += 1;
            }
        }
        if hit {
            assert(match_at(line@, key@, i as int));
            return true;
        }
        i += 1;
    }
    assert forall|p: int| !match_at(line@, key@, p) by {
        if 0 <= p && p + key@.len() <= line@.len() {
            assert(p < i);
        }
    }
    false
}

/// Split `text` on newline bytes.
pub fn split_into_lines(text: &[u8]) -> (lines: Vec<Vec<u8>>)
    ensures
        byte_views(lines@) == split_lines(text@),
{
    let mut lines: Vec<Vec<u8>> = Vec::new();
    let mut cur: Vec<u8> = Vec::new();
    let mut i: usize = 0;
    proof {
        assert(byte_views(lines@) =~= Seq::<Seq<u8>>::empty());
        assert(cur@ =~= text@.subrange(0, 0));
    }
    while i < text.len()
        invariant
            cur@.len() <= i <= text@.len(),
            cur@ == text@.subrange(i - cur@.len(), i as int),
            byte_views(lines@) + split_lines_from(text@, i - cur@.len(), i as int)
                == split_lines(text@),
        decreases text@.len() - i,
    {
        let ghost start = i - cur@.len();
        let b = text[i];
        if b == 10 {
            let ghost prev_lines = lines@;
            lines.push(cur);
            cur = Vec::new();
            proof {
                assert(byte_views(lines@) =~= byte_views(prev_lines).push(
                    text@.subrange(start, i as int),
                ));
                assert(byte_views(prev_lines).push(text@.subrange(start, i as int))
                    + split_lines_from(text@, i + 1, i + 1) =~= byte_views(prev_lines) + (seq![
                    text@.subrange(start, i as int),
                ] + split_lines_from(text@, i + 1, i + 1)));
                assert(cur@ =~= text@.subrange(i + 1, i + 1));
            }
        } else {
            cur.push(b);
            proof {
                assert(cur@ =~= text@.subrange(start, i + 1));
            }
        }
        i += 1;
    }
    let ghost start = i - cur@.len();
    lines.push(cur);
    proof {
        assert(text@.subrange(start, text@.len() as int) =~= lines@.last()@);
        assert(byte_views(lines@) =~= byte_views(lines@.drop_last()) + split_lines_from(
            text@,
            start,
            text@.len() as int,
        ));
    }
    lines
}

/// The lines of `text` in which `key` occurs, in order.
pub fn lines_containing(text: &[u8], key: &[u8]) -> (kept: Vec<Vec<u8>>)
    ensures
        byte_views(kept@) == matching_lines(split_lines(text@), key@),
{
    let mut lines = split_into_lines(text);
    let ghost all = byte_views(lines@);
    let mut kept: Vec<Vec<u8>> = Vec::new();
    proof {
        assert(byte_views(kept@) =~= Seq::<Seq<u8>>::empty());
        assert(byte_views(kept@) + matching_lines(all, key@) =~= matching_lines(all, key@));
    }
    while lines.len() > 0
        invariant
            byte_views(kept@) + matching_lines(byte_views(lines@), key@)
                == matching_lines(all, key@),
        decreases lines@.len(),
    {
        proof {
            assert(byte_views(lines@).skip(1) =~= byte_views(lines@.remove(0)));
        }
        let ghost before = lines@;
        let ghost kept_before = kept@;
        let line = lines.remove(0);
        if contains_key(&line, key) {
            kept.push(line);
            proof {
                assert(byte_views(kept@) =~= byte_views(kept_before).push(before[0]@));
                assert(byte_views(kept_before).push(before[0]@) + matching_lines(
                    byte_views(lines@),
                    key@,
                ) =~= byte_views(kept_before) + (seq![before[0]@] + matching_lines(
                    byte_views(lines@),
                    key@,
                )));
            }
        }
    }
    proof {
        assert(byte_views(lines@) =~= Seq::<Seq<u8>>::empty());
        assert(byte_views(kept@) + matching_lines(byte_views(lines@), key@) =~= byte_views(
            kept@,
        ));
    }
    kept
}

/// The bytes of `https://`, the mark of a usable stream URL in a fetched
/// playlist body.
pub open spec fn https_pat() -> Seq<u8> {
    seq![104u8, 116u8, 116u8, 112u8, 115u8, 58u8, 47u8, 47u8]
}

/// Build the `https://` needle.
fn https_needle() -> (key: Vec<u8>)
    ensures
        key@ == https_pat(),
{
    let mut key: Vec<u8> = Vec::new();
    key.push(104);
    key.push(116);
    key.push(116);
    key.push(112);
    key.push(115);
    key.push(58);
    key.push(47);
    key.push(47);
    proof {
        assert(key@ =~= https_pat());
    }
    key
}

/// The media list a fetched body yields: every line carrying a stream
/// URL, in body order.
pub fn medialist_urls(body: &[u8]) -> (urls: Vec<Vec<u8>>)
    ensures
        byte_views(urls@) == matching_lines(split_lines(body@), https_pat()),
{
    let key = https_needle();
    lines_containing(body, key.as_slice())
}

/// The station's stream URL: the first line of the body carrying one,
/// `None` when the body offers none (the upstream said `forbidden`, or
/// listed nothing usable).
pub fn first_stream_url(body: &[u8]) -> (url: Option<Vec<u8>>)
    ensures
        match url {
            Some(u) => matching_lines(split_lines(body@), https_pat()).len() > 0 && u@
                == matching_lines(split_lines(body@), https_pat())[0],
            None => matching_lines(split_lines(body@), https_pat()).len() == 0,
        },
{
    let mut urls = medialist_urls(body);
    if urls.len() == 0 {
        None
    } else {
        let u = urls.remove(0);
        Some(u)
    }
}

} // verus!
