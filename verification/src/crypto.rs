//! Hashing and encoding utilities of the wire protocol: the salted SHA-1
//! digests, the XOR obfuscation, base64 and hex transcoding, and the
//! comment-checksum pipeline.
//!
//! The outside calls (SHA-1, hex, base64, the random generator) stand behind
//! trusted wrappers; everything composed from them is verified.

use vstd::prelude::*;
use vstd::string::StrSliceExecFns;
use vstd::string::StringExecFns;
use vstd::string::StringSliceAdditionalSpecFns;
use vstd::utf8::encode_utf8;

use base64::Engine;
use rand::Rng;
use sha1::Digest;

verus! {

/// The SHA-1 digest of a byte sequence; always 20 bytes.
pub uninterp spec fn spec_sha1(data: Seq<u8>) -> Seq<u8>;

/// Relies on sha1::Sha1 through the Digest API: the SHA-1 digest of the
/// input, a pure function of the bytes, 20 bytes long.
#[verifier::external_body]
pub(crate) fn sha1_digest(data: &[u8]) -> (r: Vec<u8>)
    ensures
        r@ == spec_sha1(data@),
        r@.len() == 20,
{
    let mut hasher = sha1::Sha1::new();
    hasher.update(data);
    hasher.finalize().to_vec()
}

/// The lowercase hex digit for a nibble value.
pub open spec fn spec_hex_digit(d: int) -> char {
    if d < 10 {
        crate::numfmt::spec_digit_char(d)
    } else if d == 10 {
        'a'
    } else if d == 11 {
        'b'
    } else if d == 12 {
        'c'
    } else if d == 13 {
        'd'
    } else if d == 14 {
        'e'
    } else {
        'f'
    }
}

/// Lowercase hex rendering of a byte sequence, two digits per byte, high
/// nibble first.
pub open spec fn spec_hex_chars(data: Seq<u8>) -> Seq<char>
    decreases data.len(),
{
    if data.len() == 0 {
        Seq::empty()
    } else {
        seq![
            spec_hex_digit(data.first() as int / 16),
            spec_hex_digit(data.first() as int % 16),
        ] + spec_hex_chars(data.drop_first())
    }
}

/// Relies on hex::encode: lowercase hex, two digits per byte, high nibble
/// first.
#[verifier::external_body]
pub(crate) fn hex_encode(data: &[u8]) -> (r: String)
    ensures
        r@ == spec_hex_chars(data@),
{
    hex::encode(data)
}

/// The base64 (standard alphabet, padded) encoding of a byte sequence.
pub uninterp spec fn spec_base64_encode(data: Seq<u8>) -> Seq<char>;

/// Relies on base64's STANDARD engine: the padded standard-alphabet encoding,
/// 4 characters for every started group of 3 bytes.
#[verifier::external_body]
pub(crate) fn b64_encode_standard(data: &[u8]) -> (r: String)
    ensures
        r@ == spec_base64_encode(data@),
        r@.len() == 4 * ((data@.len() + 2) / 3),
{
    base64::engine::general_purpose::STANDARD.encode(data)
}

/// The base64 (URL-safe alphabet, padded) encoding of a byte sequence.
pub uninterp spec fn spec_base64_url_encode(data: Seq<u8>) -> Seq<char>;

/// Relies on base64's URL_SAFE engine: the padded URL-safe-alphabet encoding,
/// 4 characters for every started group of 3 bytes.
#[verifier::external_body]
pub(crate) fn b64_encode_url(data: &[u8]) -> (r: String)
    ensures
        r@ == spec_base64_url_encode(data@),
        r@.len() == 4 * ((data@.len() + 2) / 3),
{
    base64::engine::general_purpose::URL_SAFE.encode(data)
}

/// What decoding a byte sequence with base64's STANDARD engine yields, with
/// a failed decode collapsed to the empty sequence.
pub uninterp spec fn spec_base64_decode(data: Seq<u8>) -> Seq<u8>;

/// Relies on base64's STANDARD engine: decodes, and hands back nothing when
/// the input is not valid base64.
#[verifier::external_body]
pub(crate) fn b64_decode_standard(data: &[u8]) -> (r: Vec<u8>)
    ensures
        r@ == spec_base64_decode(data@),
{
    base64::engine::general_purpose::STANDARD.decode(data).unwrap_or_default()
}

/// An ASCII alphanumeric character.
pub open spec fn spec_ascii_alnum(c: char) -> bool {
    ('0' <= c && c <= '9') || ('a' <= c && c <= 'z') || ('A' <= c && c <= 'Z')
}

/// Relies on rand's Alphanumeric distribution: `length` characters drawn
/// from 0-9, A-Z and a-z; nothing is assumed about which ones.
#[verifier::external_body]
fn random_alphanumeric_string(length: usize) -> (r: String)
    ensures
        r@.len() == length as int,
        forall|i: int| 0 <= i < r@.len() ==> spec_ascii_alnum(r@[i]),
{
    rand::rng().sample_iter(&rand::distr::Alphanumeric).take(length).map(char::from).collect()
}

/// A random alphanumeric string of the given length.
pub fn rand_ascii(length: usize) -> (r: String)
    ensures
        r@.len() == length as int,
        forall|i: int| 0 <= i < r@.len() ==> spec_ascii_alnum(r@[i]),
{
    random_alphanumeric_string(length)
}

/// Each byte XOR-ed with the key byte at its index modulo the key length,
/// read back as a character.
pub open spec fn spec_xor_chars(data: Seq<u8>, key: Seq<u8>) -> Seq<char> {
    Seq::new(data.len(), |i: int| (data[i] ^ key[i % (key.len() as int)]) as char)
}

/// XOR of a byte string against a repeating key, one output character per
/// input byte.
pub fn singluar_xor(string: &[u8], key: &[u8]) -> (r: String)
    requires
        key@.len() > 0,
    ensures
        r@ == spec_xor_chars(string@, key@),
{
    let mut result = String::new();
    let n = string.len();
    let klen = key.len();
    let mut i: usize = 0;
    while i < n
        invariant
            n == string@.len(),
            klen == key@.len(),
            klen > 0,
            i <= n,
            result@ =~= spec_xor_chars(string@, key@).take(i as int),
        decreases n - i,
    {
        let c = string[i] ^ key[i % klen];
        crate::text::push_char(&mut result, c as char);
        proof {
            assert(result@ =~= spec_xor_chars(string@, key@).take(i + 1));
        }
        i += 1;
    }
    proof {
        assert(spec_xor_chars(string@, key@).take(n as int) =~= spec_xor_chars(string@, key@));
    }
    result
}

/// XOR of a string's UTF-8 bytes against a repeating key.
pub fn cyclic_xor(input: &str, key: &str) -> (r: String)
    requires
        key@.len() > 0,
    ensures
        r@ == spec_xor_chars(input.spec_bytes(), key.spec_bytes()),
{
    proof {
        lemma_encode_utf8_len(key@);
    }
    singluar_xor(input.as_bytes(), key.as_bytes())
}

/// A UTF-8 encoding is at least as long as the character sequence it encodes.
proof fn lemma_encode_utf8_len(chars: Seq<char>)
    ensures
        encode_utf8(chars).len() >= chars.len(),
    decreases chars.len(),
{
    if chars.len() > 0 {
        lemma_encode_utf8_len(chars.drop_first());
        assert(vstd::utf8::encode_scalar(chars[0] as u32).len() >= 1);
    }
}

/// Lowercase hex of the SHA-1 digest of `base` followed by `salt`.
pub open spec fn spec_sha1_salt(base: Seq<char>, salt: Seq<char>) -> Seq<char> {
    spec_hex_chars(spec_sha1(encode_utf8(base + salt)))
}

/// The salted digest used throughout the wire protocol: SHA-1 over the text
/// with the salt appended, rendered as lowercase hex.
pub fn sha1_salt(base: &String, salt: &str) -> (r: String)
    ensures
        r@ == spec_sha1_salt(base@, salt@),
{
    let mut combined = base.clone();
    combined.append(salt);
    let digest = sha1_digest(combined.as_str().as_bytes());
    hex_encode(digest.as_slice())
}

/// The 40 evenly spaced sample bytes of a level string, read as characters.
pub open spec fn spec_level_sample(bytes: Seq<u8>) -> Seq<char> {
    Seq::new(40, |k: int| bytes[k * (bytes.len() as int / 40)] as char)
}

/// The level-data checksum: 40 evenly spaced bytes of the level string,
/// salted and SHA-1 digested.
pub open spec fn spec_hash_level_string(bytes: Seq<u8>) -> Seq<char> {
    spec_sha1_salt(spec_level_sample(bytes), "xI25fpAapCQg"@)
}

proof fn lemma_sample_index_in_range(k: int, step: int, n: int)
    by (nonlinear_arith)
    requires
        0 <= k <= 39,
        step >= 1,
        40 * step <= n,
    ensures
        k * step < n,
        k * step >= 0,
{
}

/// Samples 40 evenly spaced bytes of the level data and digests them with
/// the shared salt.
pub fn hash_level_string(level_string: &String) -> (r: String)
    requires
        encode_utf8(level_string@).len() >= 40,
    ensures
        r@ == spec_hash_level_string(encode_utf8(level_string@)),
{
    let bytes = level_string.as_str().as_bytes();
    let n = bytes.len();
    let step = n / 40;
    let mut lstring = String::new();
    let mut k: usize = 0;
    while k < 40
        invariant
            n == bytes@.len(),
            n >= 40,
            step == n / 40,
            k <= 40,
            lstring@ =~= spec_level_sample(bytes@).take(k as int),
        decreases 40 - k,
    {
        proof {
            lemma_sample_index_in_range(k as int, step as int, n as int);
        }
        let idx = k * step;
        let c = bytes[idx];
        crate::text::push_char(&mut lstring, c as char);
        proof {
            assert(lstring@ =~= spec_level_sample(bytes@).take(k + 1));
        }
        k += 1;
    }
    proof {
        assert(spec_level_sample(bytes@).take(40) =~= spec_level_sample(bytes@));
    }
    sha1_salt(&lstring, "xI25fpAapCQg")
}

/// Base64 (standard) encoding of a string's UTF-8 bytes.
pub fn encode_base64(input: &str) -> (r: String)
    ensures
        r@ == spec_base64_encode(input.spec_bytes()),
{
    b64_encode_standard(input.as_bytes())
}

/// Base64 (URL-safe) encoding of a string's UTF-8 bytes.
pub fn encode_base64_url(input: &str) -> (r: String)
    ensures
        r@ == spec_base64_url_encode(input.spec_bytes()),
{
    b64_encode_url(input.as_bytes())
}

/// Standard-alphabet base64 decode of the input, rendered as lowercase hex;
/// undecodable input comes back as the empty string.
pub fn decode_base64(input: &str) -> (r: String)
    ensures
        r@ == spec_hex_chars(spec_base64_decode(input.spec_bytes())),
{
    let decoded = b64_decode_standard(input.as_bytes());
    hex_encode(decoded.as_slice())
}

/// '-' and '_' mapped back to the standard base64 alphabet.
pub open spec fn spec_url_alphabet_swap(data: Seq<u8>) -> Seq<u8> {
    Seq::new(
        data.len(),
        |i: int|
            if data[i] == 45 {
                43u8
            } else if data[i] == 95 {
                47u8
            } else {
                data[i]
            },
    )
}

fn url_alphabet_swap(data: &[u8]) -> (r: Vec<u8>)
    ensures
        r@ == spec_url_alphabet_swap(data@),
{
    let n = data.len();
    let mut r: Vec<u8> = Vec::new();
    let mut i: usize = 0;
    while i < n
        invariant
            n == data@.len(),
            i <= n,
            r@ =~= spec_url_alphabet_swap(data@).take(i as int),
        decreases n - i,
    {
        let b = data[i];
        let mapped: u8 = if b == 45 {
            43
        } else if b == 95 {
            47
        } else {
            b
        };
        r.push(mapped);
        proof {
            assert(r@ =~= spec_url_alphabet_swap(data@).take(i + 1));
        }
        i += 1;
    }
    proof {
        assert(spec_url_alphabet_swap(data@).take(n as int) =~= spec_url_alphabet_swap(data@));
    }
    r
}

/// URL-safe base64 decode (by mapping back to the standard alphabet),
/// rendered as lowercase hex.
pub fn decode_base64_url(input: &str) -> (r: String)
    ensures
        r@ == spec_hex_chars(spec_base64_decode(spec_url_alphabet_swap(input.spec_bytes()))),
{
    let swapped = url_alphabet_swap(input.as_bytes());
    let decoded = b64_decode_standard(swapped.as_slice());
    hex_encode(decoded.as_slice())
}

/// URL-safe base64 decode to raw bytes.
pub fn decode_base64_url_raw(input: &str) -> (r: Vec<u8>)
    ensures
        r@ == spec_base64_decode(spec_url_alphabet_swap(input.spec_bytes())),
{
    let swapped = url_alphabet_swap(input.as_bytes());
    b64_decode_standard(swapped.as_slice())
}

/// The values joined in order with nothing between them.
pub open spec fn spec_join_all(vs: Seq<Seq<char>>) -> Seq<char>
    decreases vs.len(),
{
    if vs.len() == 0 {
        Seq::empty()
    } else {
        vs.first() + spec_join_all(vs.drop_first())
    }
}

/// The comment checksum: the values and the salt joined, SHA-1 digested to
/// lowercase hex, XOR-ed against the key, then base64 encoded.
pub open spec fn spec_generate_checksum(vs: Seq<Seq<char>>, key: Seq<char>, salt: Seq<char>) -> Seq<
    char,
> {
    let joined = spec_join_all(vs) + salt;
    let hexd = spec_hex_chars(spec_sha1(encode_utf8(joined)));
    spec_base64_encode(encode_utf8(spec_xor_chars(encode_utf8(hexd), encode_utf8(key))))
}

/// Computes the checksum that guards comment uploads.
pub fn generate_checksum(values: Vec<String>, key: &str, salt: &str) -> (r: String)
    requires
        key@.len() > 0,
    ensures
        r@ == spec_generate_checksum(values.deep_view(), key@, salt@),
{
    let ghost vs = values.deep_view();
    let mut joined = String::new();
    let n = values.len();
    proof {
        assert(vs.skip(0) =~= vs);
        assert(joined@ + spec_join_all(vs) =~= spec_join_all(vs));
    }
    let mut i: usize = 0;
    while i < n
        invariant
            n == values@.len(),
            vs == values.deep_view(),
            i <= n,
            joined@ + spec_join_all(vs.skip(i as int)) == spec_join_all(vs),
        decreases n - i,
    {
        let ghost j0 = joined@;
        joined.append(values[i].as_str());
        proof {
            assert(vs.skip(i as int).first() == vs[i as int]);
            assert(vs[i as int] == values@[i as int]@);
            assert(vs.skip(i as int).drop_first() =~= vs.skip(i + 1));
            assert(joined@ + spec_join_all(vs.skip(i + 1)) =~= j0 + (vs[i as int] + spec_join_all(
                vs.skip(i + 1),
            )));
        }
        i += 1;
    }
    proof {
        assert(vs.skip(n as int) =~= Seq::<Seq<char>>::empty());
        assert(joined@ + spec_join_all(vs.skip(n as int)) =~= joined@);
    }
    joined.append(salt);
    let digest = sha1_digest(joined.as_str().as_bytes());
    let hexd = hex_encode(digest.as_slice());
    proof {
        lemma_encode_utf8_len(key@);
    }
    let xored = singluar_xor(hexd.as_str().as_bytes(), key.as_bytes());
    b64_encode_standard(xored.as_str().as_bytes())
}

} // verus!
