//! Programme-description cleanup: whitespace runs collapse to one space,
//! CJK compatibility characters fold to their standard variants, escaped
//! newlines gain a carriage return for the raw terminal, markup tags
//! drop out, and full-width ASCII folds to half-width. The two unicode
//! foldings come from outside crates behind named results; everything
//! else is scanned character by character here.
use vstd::prelude::*;
use unicode_normalization::UnicodeNormalization;
use vstd::std_specs::iter::IteratorSpec;

verus! {

/// A whitespace character, as the Unicode `White_Space` property has it.
pub open spec fn is_space(c: char) -> bool {
    let u = c as u32;
    ||| u == 0x09
    ||| u == 0x0A
    ||| u == 0x0B
    ||| u == 0x0C
    ||| u == 0x0D
    ||| u == 0x20
    ||| u == 0x85
    ||| u == 0xA0
    ||| u == 0x1680
    ||| 0x2000 <= u <= 0x200A
    ||| u == 0x2028
    ||| u == 0x2029
    ||| u == 0x202F
    ||| u == 0x205F
    ||| u == 0x3000
}

/// Whitespace test matching `is_space`.
fn is_space_char(c: char) -> (r: bool)
    ensures
        r == is_space(c),
{
    let u = c as u32;
    u == 0x09 || u == 0x0A || u == 0x0B || u == 0x0C || u == 0x0D || u == 0x20 || u == 0x85
        || u == 0xA0 || u == 0x1680 || (0x2000 <= u && u <= 0x200A) || u == 0x2028
        || u == 0x2029 || u == 0x202F || u == 0x205F || u == 0x3000
}

/// `s` with every maximal whitespace run replaced by one space;
/// `in_run` records whether a run is already open at the front.
pub open spec fn condense_from(s: Seq<char>, in_run: bool) -> Seq<char>
    decreases s.len(),
{
    if s.len() == 0 {
        Seq::empty()
    } else if is_space(s[0]) {
        if in_run {
            condense_from(s.skip(1), true)
        } else {
            seq![' '] + condense_from(s.skip(1), true)
        }
    } else {
        seq![s[0]] + condense_from(s.skip(1), false)
    }
}

/// Every whitespace run of `s` condensed to a single space.
pub open spec fn condense(s: Seq<char>) -> Seq<char> {
    condense_from(s, false)
}

/// `s` with each literal backslash-`n` pair followed by a literal
/// backslash-`r`, so the raw-mode terminal returns the carriage too.
pub open spec fn break_escapes(s: Seq<char>) -> Seq<char>
    decreases s.len(),
{
    if s.len() >= 2 && s[0] == '\\' && s[1] == 'n' {
        seq!['\\', 'n', '\\', 'r'] + break_escapes(s.skip(2))
    } else if s.len() == 0 {
        Seq::empty()
    } else {
        seq![s[0]] + break_escapes(s.skip(1))
    }
}

/// `s` with every `<`...`>` span removed, the delimiters included;
/// `inside` records whether a span is already open at the front.
pub open spec fn strip_tags_from(s: Seq<char>, inside: bool) -> Seq<char>
    decreases s.len(),
{
    if s.len() == 0 {
        Seq::empty()
    } else if s[0] == '<' {
        strip_tags_from(s.skip(1), true)
    } else if s[0] == '>' {
        strip_tags_from(s.skip(1), false)
    } else if inside {
        strip_tags_from(s.skip(1), true)
    } else {
        seq![s[0]] + strip_tags_from(s.skip(1), false)
    }
}

/// What `cjk_compat` returns: the standard variants of the input's CJK
/// compatibility characters, a function of the characters alone.
pub uninterp spec fn cjk_compat_of(s: Seq<char>) -> Seq<char>;

/// Relies on unicode_normalization's `cjk_compat_variants`: it replaces
/// CJK compatibility characters with their standard variants, and the
/// result depends on the input characters alone.
#[verifier::external_body]
fn cjk_compat(s: &str) -> (r: String)
    ensures
        r@ == cjk_compat_of(s@),
{
    s.cjk_compat_variants().collect()
}

/// What `zen_to_han_ascii` returns: the input with full-width ASCII and
/// digits folded to half-width (kana left alone), a function of the
/// characters alone.
pub uninterp spec fn zen_to_han_of(s: Seq<char>) -> Seq<char>;

/// Relies on mojimoji_rs::zen_to_han with ASCII and digit folding on and
/// kana folding off: full-width ASCII and digits become half-width, and
/// the result depends on the input characters alone.
#[verifier::external_body]
fn zen_to_han_ascii(s: String) -> (r: String)
    ensures
        r@ == zen_to_han_of(s@),
{
    mojimoji_rs::zen_to_han(s, true, true, false)
}

/// Relies on std's `String::push`: it appends exactly the one character.
#[verifier::external_body]
fn push_char(s: &mut String, c: char)
    ensures
        final(s)@ == old(s)@.push(c),
{
    s.push(c);
}

/// The characters of `s`, in order.
fn chars_of(s: &str) -> (v: Vec<char>)
    ensures
        v@ == s@,
{
    broadcast use vstd::string::next_postcondition;
    broadcast use vstd::string::axiom_spec_iter;

    let mut it = s.chars();
    let mut v: Vec<char> = Vec::new();
    loop
        invariant
            it.obeys_prophetic_iter_laws(),
            it.decrease() is Some,
            v@ + it.remaining() == s@,
        ensures
            v@ == s@,
        decreases it.decrease()->0,
    {
        match it.next() {
            Some(c) => {
                v.push(c);
            },
            None => {
                proof {
                    assert(v@ =~= s@);
                }
                break;
            },
        }
    }
    v
}

/// The string the characters of `v` spell, in order.
fn string_of_chars(v: &Vec<char>) -> (s: String)
    ensures
        s@ == v@,
{
    let mut s = String::new();
    let mut i: usize = 0;
    while i < v.len()
        invariant
            i <= v@.len(),
            s@ == v@.subrange(0, i as int),
        decreases v@.len() - i,
    {
        push_char(&mut s, v[i]);
        i += 1;
    }
    proof {
        assert(v@.subrange(0, v@.len() as int) =~= v@);
    }
    s
}

/// Collapse every whitespace run to a single space.
fn condense_chars(v: &Vec<char>) -> (out: Vec<char>)
    ensures
        out@ == condense(v@),
{
    let mut out: Vec<char> = Vec::new();
    let mut in_run = false;
    let mut i: usize = 0;
    proof {
        assert(v@.skip(0) =~= v@);
        assert(out@ + condense(v@) =~= condense(v@));
    }
    while i < v.len()
        invariant
            i <= v@.len(),
            out@ + condense_from(v@.skip(i as int), in_run) == condense(v@),
        decreases v@.len() - i,
    {
        proof {
            assert(v@.skip(i as int).skip(1) =~= v@.skip(i + 1));
            assert(v@.skip(i as int)[0] == v@[i as int]);
        }
        let ghost out_before = out@;
        let c = v[i];
        if is_space_char(c) {
            if !in_run {
                out.push(' ');
                in_run = true;
                proof {
                    assert(out@ + condense_from(v@.skip(i + 1), true) =~= out_before + (seq![
                        ' ',
                    ] + condense_from(v@.skip(i + 1), true)));
                }
            }
        } else {
            out.push(c);
            in_run = false;
            proof {
                assert(out@ + condense_from(v@.skip(i + 1), false) =~= out_before + (seq![
                    v@[i as int],
                ] + condense_from(v@.skip(i + 1), false)));
            }
        }
        i += 1;
    }
    proof {
        assert(v@.skip(v@.len() as int) =~= Seq::<char>::empty());
        assert(out@ + condense_from(v@.skip(v@.len() as int), in_run) =~= out@);
    }
    out
}

/// Append a literal backslash-`r` after each literal backslash-`n`.
fn break_escape_chars(v: &Vec<char>) -> (out: Vec<char>)
    ensures
        out@ == break_escapes(v@),
{
    let mut out: Vec<char> = Vec::new();
    let mut i: usize = 0;
    proof {
        assert(v@.skip(0) =~= v@);
        assert(out@ + break_escapes(v@) =~= break_escapes(v@));
    }
    while i < v.len()
        invariant
            i <= v@.len(),
            out@ + break_escapes(v@.skip(i as int)) == break_escapes(v@),
        decreases v@.len() - i,
    {
        proof {
            assert(v@.skip(i as int).skip(1) =~= v@.skip(i + 1));
            assert(v@.skip(i as int)[0] == v@[i as int]);
            if i + 1 < v@.len() {
                assert(v@.skip(i as int).skip(2) =~= v@.skip(i + 2));
                assert(v@.skip(i as int)[1] == v@[i + 1]);
            }
        }
        let ghost out_before = out@;
        let c = v[i];
        if c == '\\' && i + 1 < v.len() && v[i + 1] == 'n' {
            out.push('\\');
            out.push('n');
            out.push('\\');
            out.push('r');
            proof {
                assert(out@ + break_escapes(v@.skip(i + 2)) =~= out_before + (seq![
                    '\\',
                    'n',
                    '\\',
                    'r',
                ] + break_escapes(v@.skip(i + 2))));
            }
            i += 2;
        } else {
            out.push(c);
            proof {
                assert(out@ + break_escapes(v@.skip(i + 1)) =~= out_before + (seq![
                    v@[i as int],
                ] + break_escapes(v@.skip(i + 1))));
            }
            i += 1;
        }
    }
    proof {
        assert(v@.skip(v@.len() as int) =~= Seq::<char>::empty());
        assert(out@ + break_escapes(v@.skip(v@.len() as int)) =~= out@);
    }
    out
}

/// Drop every `<`...`>` span, the delimiters included.
fn strip_tag_chars(v: &Vec<char>) -> (out: Vec<char>)
    ensures
        out@ == strip_tags_from(v@, false),
{
    let mut out: Vec<char> = Vec::new();
    let mut inside = false;
    let mut i: usize = 0;
    proof {
        assert(v@.skip(0) =~= v@);
        assert(out@ + strip_tags_from(v@, false) =~= strip_tags_from(v@, false));
    }
    while i < v.len()
        invariant
            i <= v@.len(),
            out@ + strip_tags_from(v@.skip(i as int), inside) == strip_tags_from(v@, false),
        decreases v@.len() - i,
    {
        proof {
            assert(v@.skip(i as int).skip(1) =~= v@.skip(i + 1));
            assert(v@.skip(i as int)[0] == v@[i as int]);
        }
        let ghost out_before = out@;
        let c = v[i];
        if c == '<' {
            inside = true;
        } else if c == '>' {
            inside = false;
        } else if !inside {
            out.push(c);
            proof {
                assert(out@ + strip_tags_from(v@.skip(i + 1), false) =~= out_before + (seq![
                    v@[i as int],
                ] + strip_tags_from(v@.skip(i + 1), false)));
            }
        }
        i += 1;
    }
    proof {
        assert(v@.skip(v@.len() as int) =~= Seq::<char>::empty());
        assert(out@ + strip_tags_from(v@.skip(v@.len() as int), inside) =~= out@);
    }
    out
}

/// The cleaned programme description: whitespace condensed, CJK
/// compatibility characters folded, escaped newlines given a carriage
/// return, markup spans removed, and full-width ASCII folded.
pub open spec fn strip_html_spec(s: Seq<char>) -> Seq<char> {
    zen_to_han_of(strip_tags_from(break_escapes(cjk_compat_of(condense(s))), false))
}

/// Clean a programme description for the raw-mode terminal.
pub fn strip_html(source: &str) -> (r: String)
    ensures
        r@ == strip_html_spec(source@),
{
    let chars = chars_of(source);
    let condensed = condense_chars(&chars);
    let folded = cjk_compat(string_of_chars(&condensed).as_str());
    let broken = break_escape_chars(&chars_of(folded.as_str()));
    let stripped = strip_tag_chars(&broken);
    zen_to_han_ascii(string_of_chars(&stripped))
}

} // verus!
