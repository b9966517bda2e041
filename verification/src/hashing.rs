//! SHA-256 digests and canonical JSON text, as the `sha2` and
//! `serde_json` crates compute them, and lowercase hexadecimal text.

use vstd::prelude::*;
use vstd::string::*;

verus! {

/// The SHA-256 digest of a byte string, as `sha2` computes it.
pub uninterp spec fn sha256_digest(data: Seq<u8>) -> Seq<u8>;

/// The compact JSON text that `serde_json` prints for an object whose
/// members are the string-valued `fields` and, under `nested_key`, an
/// object of the string-valued `nested` members.
pub uninterp spec fn json_object_text(
    fields: Seq<(Seq<char>, Seq<char>)>,
    nested_key: Seq<char>,
    nested: Seq<(Seq<char>, Seq<char>)>,
) -> Seq<char>;

/// The lowercase hexadecimal digit for a value below sixteen.
pub open spec fn hex_digit(v: int) -> char {
    seq!['0', '1', '2', '3', '4', '5', '6', '7', '8', '9', 'a', 'b', 'c', 'd', 'e', 'f'][v]
}

/// Lowercase hexadecimal text: two digits for each byte, high half first.
pub open spec fn hex_lower(data: Seq<u8>) -> Seq<char> {
    Seq::new(
        2 * data.len(),
        |i: int|
            if i % 2 == 0 {
                hex_digit(data[i / 2] as int / 16)
            } else {
                hex_digit(data[i / 2] as int % 16)
            },
    )
}

/// A list of string pairs as pairs of character sequences.
pub open spec fn pairs_view(pairs: Seq<(String, String)>) -> Seq<(Seq<char>, Seq<char>)> {
    pairs.map_values(|p: (String, String)| (p.0@, p.1@))
}

/// Lowercase hexadecimal text of the SHA-256 digest of a string's bytes.
pub open spec fn sha256_hex_of(text: Seq<char>) -> Seq<char> {
    hex_lower(sha256_digest(vstd::utf8::encode_utf8(text)))
}

/// Calls `sha2::Sha256::digest`. Trusted: the result is the SHA-256 digest
/// of `data`, which is 32 bytes long.
#[verifier::external_body]
pub(crate) fn sha256(data: &[u8]) -> (digest: Vec<u8>)
    ensures
        digest@ == sha256_digest(data@),
        digest@.len() == 32,
{
    <sha2::Sha256 as sha2::Digest>::digest(data).to_vec()
}

fn hex_digit_text(v: u8) -> (text: &'static str)
    requires
        v < 16,
    ensures
        text@ == seq![hex_digit(v as int)],
{
    proof {
        reveal_strlit("0");
        reveal_strlit("1");
        reveal_strlit("2");
        reveal_strlit("3");
        reveal_strlit("4");
        reveal_strlit("5");
        reveal_strlit("6");
        reveal_strlit("7");
        reveal_strlit("8");
        reveal_strlit("9");
        reveal_strlit("a");
        reveal_strlit("b");
        reveal_strlit("c");
        reveal_strlit("d");
        reveal_strlit("e");
        reveal_strlit("f");
    }
    let text = if v == 0 {
        "0"
    } else if v == 1 {
        "1"
    } else if v == 2 {
        "2"
    } else if v == 3 {
        "3"
    } else if v == 4 {
        "4"
    } else if v == 5 {
        "5"
    } else if v == 6 {
        "6"
    } else if v == 7 {
        "7"
    } else if v == 8 {
        "8"
    } else if v == 9 {
        "9"
    } else if v == 10 {
        "a"
    } else if v == 11 {
        "b"
    } else if v == 12 {
        "c"
    } else if v == 13 {
        "d"
    } else if v == 14 {
        "e"
    } else {
        "f"
    };
    text
}

/// Lowercase hexadecimal text of a byte string: every byte becomes two
/// digits, the high half first.
pub fn hex_encode(data: &[u8]) -> (text: String)
    ensures
        text@ == hex_lower(data@),
{
    let mut text = String::new();
    let mut i: usize = 0;
    while i < data.len()
        invariant
            i <= data.len(),
            text@ == hex_lower(data@.take(i as int)),
        decreases data.len() - i,
    {
        let byte = data[i];
        text.append(hex_digit_text(byte / 16));
        text.append(hex_digit_text(byte % 16));
        proof {
            assert(text@ =~= hex_lower(data@.take(i + 1)));
        }
        i = i + 1;
    }
    proof {
        assert(data@.take(data.len() as int) =~= data@);
    }
    text
}

/// Calls `serde_json::to_string` on an object built with
/// `serde_json::Map::insert`. Trusted: the call succeeds, and the text is
/// the one `serde_json` prints for that object. It succeeds because the
/// object has text keys and text values only and is written into memory:
/// the writer is the one source of an error in `serde_json`'s printing of
/// such a value, and writing into memory does not fail.
#[verifier::external_body]
pub(crate) fn json_object_to_text(
    fields: &Vec<(String, String)>,
    nested_key: &str,
    nested: &Vec<(String, String)>,
) -> (text: Option<String>)
    ensures
        text is Some,
        text matches Some(t) ==> t@ == json_object_text(
            pairs_view(fields@),
            nested_key@,
            pairs_view(nested@),
        ),
{
    let mut inner = serde_json::Map::new();
    for (k, v) in nested.iter() {
        inner.insert(k.clone(), serde_json::Value::String(v.clone()));
    }
    let mut outer = serde_json::Map::new();
    for (k, v) in fields.iter() {
        outer.insert(k.clone(), serde_json::Value::String(v.clone()));
    }
    outer.insert(nested_key.to_string(), serde_json::Value::Object(inner));
    serde_json::to_string(&serde_json::Value::Object(outer)).ok()
}

/// Lowercase hexadecimal text of the SHA-256 digest of a string's bytes.
pub fn sha256_hex(text: &str) -> (hex: String)
    ensures
        hex@ == sha256_hex_of(text@),
        hex@.len() == 64,
{
    let digest = sha256(text.as_bytes());
    hex_encode(digest.as_slice())
}

} // verus!
