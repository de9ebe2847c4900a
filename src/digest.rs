//! Cache keys: a SHA-256 digest over an unambiguous encoding of an
//! invocation, rendered as lowercase hexadecimal.

use sha2::Digest;
use vstd::prelude::*;

verus! {

/// The lowercase hexadecimal digits, by value.
pub open spec fn hex_digits() -> Seq<char> {
    seq!['0', '1', '2', '3', '4', '5', '6', '7', '8', '9', 'a', 'b', 'c', 'd', 'e', 'f']
}

/// Two lowercase hexadecimal digits per byte, high nibble first.
pub open spec fn hex_lower(bytes: Seq<u8>) -> Seq<char>
    decreases bytes.len(),
{
    if bytes.len() == 0 {
        seq![]
    } else {
        seq![hex_digits()[bytes[0] as int / 16], hex_digits()[bytes[0] as int % 16]] + hex_lower(
            bytes.drop_first(),
        )
    }
}

/// The characters of each string of a sequence.
pub open spec fn strings_view(items: Seq<String>) -> Seq<Seq<char>> {
    items.map_values(|s: String| s@)
}

/// The compact JSON text, as UTF-8 bytes, of an array of strings.
pub uninterp spec fn json_string_array(items: Seq<Seq<char>>) -> Seq<u8>;

/// The compact JSON text, as UTF-8 bytes, of a single string.
pub uninterp spec fn json_string(s: Seq<char>) -> Seq<u8>;

/// The SHA-256 digest of a byte sequence.
pub uninterp spec fn sha256_of(data: Seq<u8>) -> Seq<u8>;

/// The cache key of the argument vector `args` run in directory `cwd`: the
/// hexadecimal SHA-256 digest of the JSON array of the arguments followed by
/// the JSON string of the directory.
pub open spec fn digest_key(args: Seq<Seq<char>>, cwd: Seq<char>) -> Seq<char> {
    hex_lower(sha256_of(json_string_array(args) + json_string(cwd)))
}

/// Relies on serde_json::to_vec for a slice of `String`: it writes the JSON
/// array of the strings. A string's serialization never fails and the
/// in-memory writer never fails, so the documented failures (a failing
/// `Serialize` impl, a map with non-string keys) cannot occur.
#[verifier::external_body]
fn encode_args(args: &[String]) -> (r: Result<Vec<u8>, serde_json::Error>)
    ensures
        r is Ok,
        r is Ok ==> r->Ok_0@ == json_string_array(strings_view(args@)),
{
    serde_json::to_vec(args)
}

/// Relies on serde_json::to_vec for a `str`: it writes the JSON string
/// literal; for the same reasons as above it cannot fail.
#[verifier::external_body]
fn encode_cwd(cwd: &str) -> (r: Result<Vec<u8>, serde_json::Error>)
    ensures
        r is Ok,
        r is Ok ==> r->Ok_0@ == json_string(cwd@),
{
    serde_json::to_vec(cwd)
}

/// Relies on sha2's `Sha256::digest`: the 32-byte SHA-256 digest of `data`.
#[verifier::external_body]
fn sha256(data: &[u8]) -> (r: Vec<u8>)
    ensures
        r@ == sha256_of(data@),
        r@.len() == 32,
{
    sha2::Sha256::digest(data).to_vec()
}

/// Relies on hex::encode: two lowercase hexadecimal digits per byte, high
/// nibble first.
#[verifier::external_body]
fn hex_encode(bytes: &[u8]) -> (r: String)
    ensures
        r@ == hex_lower(bytes@),
{
    hex::encode(bytes)
}

/// The hexadecimal text of a byte sequence is twice as long as the bytes.
pub proof fn lemma_hex_len(bytes: Seq<u8>)
    ensures
        hex_lower(bytes).len() == 2 * bytes.len(),
    decreases bytes.len(),
{
    if bytes.len() > 0 {
        lemma_hex_len(bytes.drop_first());
    }
}

/// Every character of the hexadecimal text of a byte sequence is a
/// lowercase hexadecimal digit.
pub proof fn lemma_hex_digits_only(bytes: Seq<u8>)
    ensures
        forall|i: int|
            0 <= i < hex_lower(bytes).len() ==> hex_digits().contains(#[trigger] hex_lower(bytes)[i]),
    decreases bytes.len(),
{
    if bytes.len() > 0 {
        let rest = bytes.drop_first();
        lemma_hex_digits_only(rest);
        let head = seq![hex_digits()[bytes[0] as int / 16], hex_digits()[bytes[0] as int % 16]];
        assert forall|i: int| 0 <= i < hex_lower(bytes).len() implies hex_digits().contains(
            #[trigger] hex_lower(bytes)[i],
        ) by {
            if i < 2 {
                let v: int = if i == 0 { bytes[0] as int / 16 } else { bytes[0] as int % 16 };
                assert(hex_digits()[v] == hex_lower(bytes)[i]);
            } else {
                assert(hex_lower(bytes)[i] == hex_lower(rest)[i - 2]);
            }
        }
    }
}

/// Renders a digest as lowercase hexadecimal text.
pub fn digest_hex(hash: &[u8]) -> (r: String)
    ensures
        r@ == hex_lower(hash@),
        r@.len() == 2 * hash@.len(),
        forall|i: int| 0 <= i < r@.len() ==> hex_digits().contains(#[trigger] r@[i]),
{
    proof {
        lemma_hex_len(hash@);
        lemma_hex_digits_only(hash@);
    }
    hex_encode(hash)
}

/// The cache key of already encoded arguments and working directory: the
/// hexadecimal SHA-256 digest of the two encodings one after the other.
pub fn digest_of_encodings(encoded_args: &[u8], encoded_cwd: &[u8]) -> (r: String)
    ensures
        r@ == hex_lower(sha256_of(encoded_args@ + encoded_cwd@)),
        r@.len() == 64,
        forall|i: int| 0 <= i < r@.len() ==> hex_digits().contains(#[trigger] r@[i]),
{
    let mut message: Vec<u8> = Vec::new();
    message.extend_from_slice(encoded_args);
    message.extend_from_slice(encoded_cwd);
    assert(message@ == encoded_args@ + encoded_cwd@);
    let hash = sha256(message.as_slice());
    digest_hex(hash.as_slice())
}

/// Computes the cache key of running `args` in directory `cwd`.
///
/// The arguments are encoded as a JSON array, so that element boundaries are
/// kept, and the directory as a JSON string; the key is the SHA-256 digest
/// of the two encodings, as 64 lowercase hexadecimal digits.
pub fn compute_digest_for_args(args: &[String], cwd: &str) -> (r: Result<String, serde_json::Error>)
    ensures
        r matches Ok(key) && key@ == digest_key(strings_view(args@), cwd@) && key@.len() == 64
            && forall|i: int| 0 <= i < key@.len() ==> hex_digits().contains(#[trigger] key@[i]),
{
    let encoded_args = match encode_args(args) {
        Ok(bytes) => bytes,
        Err(e) => return Err(e),
    };
    let encoded_cwd = match encode_cwd(cwd) {
        Ok(bytes) => bytes,
        Err(e) => return Err(e),
    };
    Ok(digest_of_encodings(encoded_args.as_slice(), encoded_cwd.as_slice()))
}

/// The cache key is a function of the invocation: equal argument vectors
/// run in equal directories always get equal keys.
pub proof fn lemma_digest_deterministic(
    args1: Seq<Seq<char>>,
    cwd1: Seq<char>,
    args2: Seq<Seq<char>>,
    cwd2: Seq<char>,
)
    requires
        args1 == args2,
        cwd1 == cwd2,
    ensures
        digest_key(args1, cwd1) == digest_key(args2, cwd2),
{
}

} // verus!
