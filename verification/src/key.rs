//! The key under which a node's backup record is stored.
//!
//! Node names may be as long as 253 bytes, longer than a record name may be
//! once a prefix is put in front. The key is therefore the prefix followed by
//! the SHA-256 digest of the name in lower-case hexadecimal: always 76
//! characters, always the same for the same name.

use sha2::Digest;
use vstd::prelude::*;
use vstd::string::*;

verus! {

/// The SHA-256 digest of a byte string, as `sha2` computes it.
pub uninterp spec fn sha256_digest(data: Seq<u8>) -> Seq<u8>;

/// The sixteen lower-case hexadecimal digits, by value.
pub open spec fn hex_digits() -> Seq<char> {
    seq!['0', '1', '2', '3', '4', '5', '6', '7', '8', '9', 'a', 'b', 'c', 'd', 'e', 'f']
}

/// A byte string written as lower-case hexadecimal: two digits for each byte,
/// the high half first.
pub open spec fn hex_lower(data: Seq<u8>) -> Seq<char> {
    Seq::new(
        2 * data.len(),
        |i: int|
            if i % 2 == 0 {
                hex_digits()[data[i / 2] as int / 16]
            } else {
                hex_digits()[data[i / 2] as int % 16]
            },
    )
}

/// Hexadecimal text holds nothing but hexadecimal digits.
pub proof fn lemma_hex_lower_digits(data: Seq<u8>)
    ensures
        hex_lower(data).len() == 2 * data.len(),
        forall|i: int| 0 <= i < 2 * data.len() ==> hex_digits().contains(#[trigger] hex_lower(data)[i]),
{
    assert forall|i: int| 0 <= i < 2 * data.len() implies hex_digits().contains(
        #[trigger] hex_lower(data)[i],
    ) by {
        let byte = data[i / 2] as int;
        let digit = if i % 2 == 0 {
            byte / 16
        } else {
            byte % 16
        };
        assert(0 <= digit < 16);
        assert(hex_lower(data)[i] == hex_digits()[digit]);
    }
}

/// What every record key starts with.
pub open spec fn key_prefix() -> Seq<char> {
    "node-labels-"@
}

/// The record key of the node called `node_name`.
pub open spec fn record_key(node_name: Seq<char>) -> Seq<char> {
    key_prefix() + hex_lower(sha256_digest(vstd::utf8::encode_utf8(node_name)))
}

/// Calls `sha2::Sha256::digest`. Trusted: the result is the SHA-256 digest of
/// `data`, which depends on `data` alone and is 32 bytes long.
#[verifier::external_body]
fn sha256(data: &[u8]) -> (digest: Vec<u8>)
    ensures
        digest@ == sha256_digest(data@),
        digest@.len() == 32,
{
    sha2::Sha256::digest(data).to_vec()
}

/// Calls `hex::encode`. Trusted: the result holds, for each byte of `data` in
/// order, its high and its low half as lower-case hexadecimal digits.
#[verifier::external_body]
fn hex_encode(data: &Vec<u8>) -> (text: String)
    ensures
        text@ == hex_lower(data@),
{
    hex::encode(data)
}

/// Derives the name of the record that holds the backup of `node_name`.
pub fn configmap_name(node_name: &str) -> (name: String)
    ensures
        name@ == record_key(node_name@),
        name@.len() == 76,
        forall|i: int| 12 <= i < 76 ==> hex_digits().contains(#[trigger] name@[i]),
{
    let digest = sha256(node_name.as_bytes());
    let hex_encoded_hash = hex_encode(&digest);
    proof {
        reveal_strlit("node-labels-");
        lemma_hex_lower_digits(digest@);
    }
    String::from_str("node-labels-").concat(hex_encoded_hash.as_str())
}

} // verus!
