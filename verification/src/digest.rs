//! Content addressing: the SHA-1 digest of a payload, written in lowercase
//! hexadecimal.

use vstd::prelude::*;

verus! {

/// The SHA-1 digest that `openssl::sha::sha1` computes, twenty bytes.
pub uninterp spec fn sha1_digest(data: Seq<u8>) -> Seq<u8>;

/// The lowercase hexadecimal digit of a value below sixteen.
pub open spec fn hex_digit(value: nat) -> char {
    if value == 0 {
        '0'
    } else if value == 1 {
        '1'
    } else if value == 2 {
        '2'
    } else if value == 3 {
        '3'
    } else if value == 4 {
        '4'
    } else if value == 5 {
        '5'
    } else if value == 6 {
        '6'
    } else if value == 7 {
        '7'
    } else if value == 8 {
        '8'
    } else if value == 9 {
        '9'
    } else if value == 10 {
        'a'
    } else if value == 11 {
        'b'
    } else if value == 12 {
        'c'
    } else if value == 13 {
        'd'
    } else if value == 14 {
        'e'
    } else {
        'f'
    }
}

/// The lowercase hexadecimal writing of a run of bytes: two digits per byte,
/// the high half first.
pub open spec fn hex_lower(data: Seq<u8>) -> Seq<char> {
    Seq::new(
        2 * data.len(),
        |i: int|
            if i % 2 == 0 {
                hex_digit((data[i / 2] / 16) as nat)
            } else {
                hex_digit((data[i / 2] % 16) as nat)
            },
    )
}

/// Whether a character is a lowercase hexadecimal digit.
pub open spec fn is_lower_hex(c: char) -> bool {
    ('0' <= c && c <= '9') || ('a' <= c && c <= 'f')
}

/// A hexadecimal writing holds lowercase hexadecimal digits only, two per
/// byte.
pub proof fn lemma_hex_lower_shape(data: Seq<u8>)
    ensures
        hex_lower(data).len() == 2 * data.len(),
        forall|i: int| 0 <= i < hex_lower(data).len() ==> is_lower_hex(#[trigger] hex_lower(data)[i]),
{
    assert forall|i: int| 0 <= i < hex_lower(data).len() implies is_lower_hex(
        #[trigger] hex_lower(data)[i],
    ) by {
        let byte = data[i / 2];
        assert(is_lower_hex(hex_digit((byte / 16) as nat)));
        assert(is_lower_hex(hex_digit((byte % 16) as nat)));
    }
}

/// Calls `openssl::sha::sha1`. The contract names the digest.
#[verifier::external_body]
pub(crate) fn sha1(data: &[u8]) -> (digest: [u8; 20])
    ensures
        digest@ == sha1_digest(data@),
{
    openssl::sha::sha1(data)
}

/// Calls `hex::encode`, which writes each byte as two lowercase hexadecimal
/// digits. The contract gives every character of the result.
#[verifier::external_body]
pub(crate) fn hex_encode(data: &[u8]) -> (text: String)
    ensures
        text@ == hex_lower(data@),
{
    hex::encode(data)
}

/// The content hash of a payload: its SHA-1 digest in lowercase hexadecimal,
/// forty characters.
pub open spec fn content_hash_of(data: Seq<u8>) -> Seq<char> {
    hex_lower(sha1_digest(data))
}

/// Computes the content hash of a payload.
pub fn content_hash(data: &[u8]) -> (hash: String)
    ensures
        hash@ == content_hash_of(data@),
        hash@.len() == 40,
        forall|i: int| 0 <= i < 40 ==> is_lower_hex(#[trigger] hash@[i]),
{
    let digest = sha1(data);
    proof {
        lemma_hex_lower_shape(digest@);
    }
    hex_encode(digest.as_slice())
}

} // verus!
