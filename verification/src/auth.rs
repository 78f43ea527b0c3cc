//! The two computed pieces of the authentication handshake: the hex-coded
//! digest sent as the station query's hash, and the base64-coded slice of
//! the session key selected by the offset and length the upstream
//! announced. The digest and the base64 coding come from outside crates
//! behind named results; the slicing and the bounds check are verified.
use vstd::prelude::*;
use vstd::string::StringSliceAdditionalSpecFns;
use base64::Engine;

verus! {

/// The lowercase hex digit of a value below 16.
pub open spec fn hex_digit(n: u8) -> u8 {
    if n < 10 {
        (n + 48) as u8
    } else {
        (n + 87) as u8
    }
}

/// The lowercase hex coding of `bytes`, two digits per byte.
pub open spec fn hex_of(bytes: Seq<u8>) -> Seq<u8>
    decreases bytes.len(),
{
    if bytes.len() == 0 {
        Seq::empty()
    } else {
        seq![hex_digit(bytes[0] / 16), hex_digit(bytes[0] % 16)] + hex_of(bytes.skip(1))
    }
}

/// Code `bytes` as lowercase hex.
fn to_hex(bytes: &Vec<u8>) -> (out: Vec<u8>)
    ensures
        out@ == hex_of(bytes@),
{
    let mut out: Vec<u8> = Vec::new();
    let mut i: usize = 0;
    proof {
        assert(bytes@.skip(0) =~= bytes@);
        assert(out@ + hex_of(bytes@) =~= hex_of(bytes@));
    }
    while i < bytes.len()
        invariant
            i <= bytes@.len(),
            out@ + hex_of(bytes@.skip(i as int)) == hex_of(bytes@),
        decreases bytes@.len() - i,
    {
        proof {
            assert(bytes@.skip(i as int).skip(1) =~= bytes@.skip(i + 1));
            assert(bytes@.skip(i as int)[0] == bytes@[i as int]);
        }
        let ghost out_before = out@;
        let b = bytes[i];
        let hi = b / 16;
        let lo = b % 16;
        out.push(if hi < 10 {
            hi + 48
        } else {
            hi + 87
        });
        out.push(if lo < 10 {
            lo + 48
        } else {
            lo + 87
        });
        proof {
            assert(out@ + hex_of(bytes@.skip(i + 1)) =~= out_before + (seq![
                hex_digit(bytes@[i as int] / 16),
                hex_digit(bytes@[i as int] % 16),
            ] + hex_of(bytes@.skip(i + 1))));
        }
        i += 1;
    }
    proof {
        assert(bytes@.skip(bytes@.len() as int) =~= Seq::<u8>::empty());
        assert(out@ + hex_of(bytes@.skip(bytes@.len() as int)) =~= out@);
    }
    out
}

/// What `md5_digest` returns: the 16-byte MD5 digest of the input, a
/// function of the bytes alone.
pub uninterp spec fn md5_of(data: Seq<u8>) -> Seq<u8>;

/// Relies on md5::compute: the 16-byte MD5 digest of the input, a
/// function of the bytes alone.
#[verifier::external_body]
fn md5_digest(data: &[u8]) -> (digest: Vec<u8>)
    ensures
        digest@ == md5_of(data@),
        digest@.len() == 16,
{
    md5::compute(data).0.to_vec()
}

/// The seed the hash key digests: the lowercase ASCII alphabet.
pub open spec fn hash_seed() -> Seq<u8> {
    Seq::new(26, |i: int| (97 + i) as u8)
}

/// The station query's hash: the lowercase hex coding of the MD5 digest
/// of the lowercase alphabet.
pub fn gen_hash_key() -> (key: Vec<u8>)
    ensures
        key@ == hex_of(md5_of(hash_seed())),
{
    let mut seed: Vec<u8> = Vec::new();
    let mut i: u8 = 0;
    while i < 26
        invariant
            i <= 26,
            seed@.len() == i,
            forall|k: int| 0 <= k < i ==> seed@[k] == (97 + k) as u8,
        decreases 26 - i,
    {
        seed.push(97 + i);
        i += 1;
    }
    proof {
        assert(seed@ =~= hash_seed());
    }
    let digest = md5_digest(seed.as_slice());
    to_hex(&digest)
}

/// What `base64_encode` returns: the standard, padded base64 coding of
/// the input, a function of the bytes alone.
pub uninterp spec fn base64_of(data: Seq<u8>) -> Seq<char>;

/// Relies on base64's standard padded engine: the base64 coding of the
/// input, four output characters for every three input bytes, a function
/// of the bytes alone.
#[verifier::external_body]
fn base64_encode(data: &[u8]) -> (r: String)
    ensures
        r@ == base64_of(data@),
        r@.len() == 4 * ((data@.len() + 2) / 3),
{
    base64::engine::general_purpose::STANDARD.encode(data)
}

/// The partial key the auth handshake sends back: the base64 coding of
/// the announced byte range of the session key. `None` exactly when the
/// announced range runs past the key, which marks the announcement
/// malformed rather than slicing out of bounds.
pub fn partial_key(key: &str, offset: usize, length: usize) -> (r: Option<String>)
    ensures
        match r {
            Some(code) => {
                &&& offset + length <= key.spec_bytes().len()
                &&& code@ == base64_of(key.spec_bytes().subrange(
                    offset as int,
                    offset + length,
                ))
            },
            None => offset + length > key.spec_bytes().len(),
        },
{
    let bytes = key.as_bytes();
    if offset > bytes.len() || length > bytes.len() - offset {
        return None;
    }
    let part = vstd::slice::slice_subrange(bytes, offset, offset + length);
    Some(base64_encode(part))
}

} // verus!
