//! PKCE (Proof Key for Code Exchange, RFC 7636): code verifiers and S256
//! challenges.

use base64::engine::general_purpose::URL_SAFE_NO_PAD;
use base64::Engine;
use rand::Rng;
use sha2::{Digest, Sha256};
use vstd::prelude::*;
use vstd::utf8::{decode_utf8, encode_utf8, encode_utf8_decode_utf8};

use crate::text::push_char;

verus! {

#[verifier::external_type_specification]
#[verifier::external_body]
pub struct ExThreadRng(rand::rngs::ThreadRng);

/// Number of unreserved characters a verifier is drawn from.
pub const UNRESERVED_COUNT: usize = 66;

/// Length of a generated verifier.
pub const VERIFIER_LEN: usize = 64;

/// The unreserved characters of RFC 7636, in the order
/// `A-Z a-z 0-9 - . _ ~`; `i` indexes them.
pub open spec fn unreserved_char(i: int) -> char {
    if i < 26 {
        (65 + i) as char
    } else if i < 52 {
        (97 + i - 26) as char
    } else if i < 62 {
        (48 + i - 52) as char
    } else if i == 62 {
        '-'
    } else if i == 63 {
        '.'
    } else if i == 64 {
        '_'
    } else {
        '~'
    }
}

/// `c` is an unreserved character: `A-Z a-z 0-9 - . _ ~`.
pub open spec fn is_unreserved(c: char) -> bool {
    ('A' <= c && c <= 'Z') || ('a' <= c && c <= 'z') || ('0' <= c && c <= '9') || c == '-' || c
        == '.' || c == '_' || c == '~'
}

/// The base64url alphabet (RFC 4648 §5) character for the 6-bit value `v`.
pub open spec fn base64url_char(v: int) -> char {
    if v < 26 {
        (65 + v) as char
    } else if v < 52 {
        (97 + v - 26) as char
    } else if v < 62 {
        (48 + v - 52) as char
    } else if v == 62 {
        '-'
    } else {
        '_'
    }
}

/// `c` belongs to the base64url alphabet.
pub open spec fn is_base64url_char(c: char) -> bool {
    ('A' <= c && c <= 'Z') || ('a' <= c && c <= 'z') || ('0' <= c && c <= '9') || c == '-' || c
        == '_'
}

/// Base64url encoding without padding (RFC 4648 §5): each group of three
/// bytes gives four characters, a final group of one or two bytes gives two
/// or three.
pub open spec fn base64url_nopad(b: Seq<u8>) -> Seq<char>
    decreases b.len(),
{
    if b.len() == 0 {
        Seq::empty()
    } else if b.len() == 1 {
        seq![base64url_char((b[0] / 4) as int), base64url_char((b[0] % 4) * 16)]
    } else if b.len() == 2 {
        seq![
            base64url_char((b[0] / 4) as int),
            base64url_char((b[0] % 4) * 16 + b[1] / 16),
            base64url_char((b[1] % 16) * 4),
        ]
    } else {
        seq![
            base64url_char((b[0] / 4) as int),
            base64url_char((b[0] % 4) * 16 + b[1] / 16),
            base64url_char((b[1] % 16) * 4 + b[2] / 64),
            base64url_char((b[2] % 64) as int),
        ] + base64url_nopad(b.subrange(3, b.len() as int))
    }
}

/// The SHA-256 digest of `data`.
pub uninterp spec fn sha256(data: Seq<u8>) -> Seq<u8>;

/// Trusted: `rand::thread_rng`, the thread-local random generator. Nothing
/// is claimed of the generator.
#[verifier::external_body]
fn thread_rng() -> rand::rngs::ThreadRng {
    rand::thread_rng()
}

/// Trusted: `Rng::gen_range(0..bound)`, which returns a value below `bound`
/// (and panics on an empty range, which `requires` excludes).
#[verifier::external_body]
fn gen_index(rng: &mut rand::rngs::ThreadRng, bound: usize) -> (res: usize)
    requires
        bound > 0,
    ensures
        res < bound,
{
    rng.gen_range(0..bound)
}

/// Trusted: `Sha256::digest` from sha2; its result is named `sha256` and has
/// 32 bytes (the output type is a 32-byte array).
#[verifier::external_body]
fn sha256_digest(data: &[u8]) -> (res: Vec<u8>)
    ensures
        res@ == sha256(data@),
        res@.len() == 32,
{
    Sha256::digest(data).to_vec()
}

/// Trusted: base64's `URL_SAFE_NO_PAD.encode`, which encodes with the
/// base64url alphabet and no padding, as `base64url_nopad` states.
#[verifier::external_body]
fn base64_url_encode(data: &[u8]) -> (res: String)
    ensures
        res@ == base64url_nopad(data@),
{
    URL_SAFE_NO_PAD.encode(data)
}

/// The unreserved character with index `i`.
pub fn unreserved_at(i: usize) -> (c: char)
    requires
        i < UNRESERVED_COUNT,
    ensures
        c == unreserved_char(i as int),
        is_unreserved(c),
{
    if i < 26 {
        ((65 + i) as u8) as char
    } else if i < 52 {
        ((97 + i - 26) as u8) as char
    } else if i < 62 {
        ((48 + i - 52) as u8) as char
    } else if i == 62 {
        '-'
    } else if i == 63 {
        '.'
    } else if i == 64 {
        '_'
    } else {
        '~'
    }
}

/// The verifier spelled by a list of indices into the unreserved characters.
pub fn verifier_from_indices(indices: &Vec<usize>) -> (res: String)
    requires
        forall|i: int| 0 <= i < indices@.len() ==> indices@[i] < UNRESERVED_COUNT,
    ensures
        res@.len() == indices@.len(),
        forall|i: int| 0 <= i < indices@.len() ==> #[trigger] res@[i] == unreserved_char(indices@[i] as int),
        forall|i: int| 0 <= i < res@.len() ==> is_unreserved(#[trigger] res@[i]),
{
    let mut out = String::new();
    let n = indices.len();
    let mut k: usize = 0;
    while k < n
        invariant
            n == indices@.len(),
            k <= n,
            forall|i: int| 0 <= i < indices@.len() ==> indices@[i] < UNRESERVED_COUNT,
            out@.len() == k,
            forall|i: int| 0 <= i < k ==> #[trigger] out@[i] == unreserved_char(indices@[i] as int),
            forall|i: int| 0 <= i < out@.len() ==> is_unreserved(#[trigger] out@[i]),
        decreases n - k,
    {
        push_char(&mut out, unreserved_at(indices[k]));
        k = k + 1;
    }
    out
}

/// Generates a PKCE code verifier: 64 characters, each drawn at random from
/// the unreserved characters `A-Z a-z 0-9 - . _ ~` (64 lies within the
/// 43–128 range that RFC 7636 §4.1 allows). The draws are random; the
/// verifier is the one that [`verifier_from_indices`] spells from them.
pub fn generate_verifier() -> (res: String)
    ensures
        res@.len() == VERIFIER_LEN,
        forall|i: int| 0 <= i < res@.len() ==> is_unreserved(#[trigger] res@[i]),
{
    let mut rng = thread_rng();
    let mut draws: Vec<usize> = Vec::new();
    while draws.len() < VERIFIER_LEN
        invariant
            draws@.len() <= VERIFIER_LEN,
            forall|i: int| 0 <= i < draws@.len() ==> draws@[i] < UNRESERVED_COUNT,
        decreases VERIFIER_LEN - draws@.len(),
    {
        let idx = gen_index(&mut rng, UNRESERVED_COUNT);
        draws.push(idx);
    }
    verifier_from_indices(&draws)
}

/// The length of an unpadded base64url encoding of `n` bytes.
pub open spec fn base64url_len(n: nat) -> nat {
    4 * (n / 3) + if n % 3 == 0 {
        0
    } else {
        n % 3 + 1
    }
}

/// Unpadded base64url output has the predicted length and uses only the
/// base64url alphabet.
pub proof fn lemma_base64url_shape(b: Seq<u8>)
    ensures
        base64url_nopad(b).len() == base64url_len(b.len()),
        forall|i: int|
            0 <= i < base64url_nopad(b).len() ==> is_base64url_char(#[trigger] base64url_nopad(b)[i]),
    decreases b.len(),
{
    assert forall|v: int| 0 <= v < 64 implies is_base64url_char(#[trigger] base64url_char(v)) by {
    }
    if b.len() >= 3 {
        let rest = b.subrange(3, b.len() as int);
        lemma_base64url_shape(rest);
        let head = seq![
            base64url_char((b[0] / 4) as int),
            base64url_char((b[0] % 4) * 16 + b[1] / 16),
            base64url_char((b[1] % 16) * 4 + b[2] / 64),
            base64url_char((b[2] % 64) as int),
        ];
        assert(base64url_nopad(b) == head + base64url_nopad(rest));
        assert((b.len() - 3) as nat / 3 == b.len() / 3 - 1);
        assert((b.len() - 3) as nat % 3 == b.len() % 3);
        assert forall|i: int| 0 <= i < base64url_nopad(b).len() implies is_base64url_char(
            #[trigger] base64url_nopad(b)[i],
        ) by {
            if i >= 4 {
                assert(base64url_nopad(b)[i] == base64url_nopad(rest)[i - 4]);
            }
        }
    }
}

/// The S256 challenge of a verifier: the SHA-256 digest of its UTF-8 bytes,
/// base64url-encoded without padding.
pub open spec fn s256_challenge(verifier: Seq<char>) -> Seq<char> {
    base64url_nopad(sha256(encode_utf8(verifier)))
}

/// Computes the S256 challenge of a verifier: the SHA-256 digest of its
/// UTF-8 bytes, base64url-encoded without padding. The challenge has 43
/// characters, all from the base64url alphabet.
pub fn challenge_s256(verifier: &str) -> (res: String)
    ensures
        res@ == s256_challenge(verifier@),
        res@ == base64url_nopad(sha256(encode_utf8(verifier@))),
        res@.len() == 43,
        forall|i: int| 0 <= i < res@.len() ==> is_base64url_char(#[trigger] res@[i]),
{
    let bytes = verifier.as_bytes();
    let digest = sha256_digest(bytes);
    let res = base64_url_encode(digest.as_slice());
    proof {
        lemma_base64url_shape(digest@);
    }
    res
}

/// The challenge hashes the whole verifier: the bytes given to SHA-256 are
/// the UTF-8 encoding of every character of the verifier, so they decode back
/// to the verifier itself, and verifiers that differ are hashed from
/// different bytes.
pub proof fn lemma_challenge_hashes_whole_verifier(v: Seq<char>, w: Seq<char>)
    ensures
        s256_challenge(v) == base64url_nopad(sha256(encode_utf8(v))),
        decode_utf8(encode_utf8(v)) == v,
        encode_utf8(v).len() >= v.len(),
        v != w ==> encode_utf8(v) != encode_utf8(w),
{
    encode_utf8_decode_utf8(v);
    encode_utf8_decode_utf8(w);
    lemma_encode_utf8_len(v);
}

proof fn lemma_encode_utf8_len(v: Seq<char>)
    ensures
        encode_utf8(v).len() >= v.len(),
    decreases v.len(),
{
    if v.len() > 0 {
        lemma_encode_utf8_len(v.drop_first());
    }
}

} // verus!
