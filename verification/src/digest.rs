//! SHA-256 digests, their hexadecimal form, and the identifiers made of them.
use sha2::{Digest, Sha256};
use vstd::prelude::*;

use crate::text;

verus! {

/// The SHA-256 digest of some bytes, as `sha2::Sha256::digest` computes it.
pub uninterp spec fn sha256(data: Seq<u8>) -> Seq<u8>;

/// `sha2::Sha256::digest`: a digest of 32 bytes that depends on the data alone.
#[verifier::external_body]
pub(crate) fn sha256_digest(data: &[u8]) -> (r: Vec<u8>)
    ensures
        r@ == sha256(data@),
        r@.len() == 32,
{
    Sha256::digest(data).to_vec()
}

/// The lower-case hexadecimal digit of a value below sixteen.
pub open spec fn hex_char(value: int) -> char {
    if value < 10 {
        (48 + value) as char
    } else {
        (87 + value) as char
    }
}

/// Two lower-case hexadecimal digits for each byte, high half first.
pub open spec fn hex(data: Seq<u8>) -> Seq<char> {
    Seq::new(
        2 * data.len(),
        |i: int|
            hex_char(
                if i % 2 == 0 {
                    data[i / 2] as int / 16
                } else {
                    data[i / 2] as int % 16
                },
            ),
    )
}

/// `hex::encode`: two lower-case digits for each byte.
#[verifier::external_body]
pub(crate) fn hex_encode(data: &[u8]) -> (r: String)
    ensures
        r@ == hex(data@),
{
    hex::encode(data)
}

/// Every character of a hexadecimal form is a lower-case hexadecimal digit.
pub proof fn hex_digits(data: Seq<u8>)
    ensures
        hex(data).len() == 2 * data.len(),
        forall|i: int| 0 <= i < hex(data).len() ==> text::is_lower_hex_digit(#[trigger] hex(data)[i]),
{
    assert forall|i: int| 0 <= i < hex(data).len() implies text::is_lower_hex_digit(
        #[trigger] hex(data)[i],
    ) by {
        let b = data[i / 2] as int;
        assert(0 <= b / 16 < 16 && 0 <= b % 16 < 16);
    }
}

/// Different bytes have different hexadecimal forms.
pub proof fn hex_is_injective(a: Seq<u8>, b: Seq<u8>)
    requires
        hex(a) == hex(b),
    ensures
        a == b,
{
    assert(2 * a.len() == hex(a).len() && 2 * b.len() == hex(b).len());
    assert forall|i: int| 0 <= i < a.len() implies a[i] == b[i] by {
        let (high, low) = (2 * i, 2 * i + 1);
        assert(high % 2 == 0 && high / 2 == i && low % 2 == 1 && low / 2 == i);
        let (x, y) = (a[i] as int, b[i] as int);
        assert(hex(a)[high] == hex_char(x / 16) && hex(b)[high] == hex_char(y / 16));
        assert(hex(a)[low] == hex_char(x % 16) && hex(b)[low] == hex_char(y % 16));
        assert(x / 16 == y / 16 && x % 16 == y % 16);
    }
    assert(a =~= b);
}

/// The hexadecimal SHA-256 digest of some bytes.
pub open spec fn sha256_text(data: Seq<u8>) -> Seq<char> {
    hex(sha256(data))
}

/// The hexadecimal SHA-256 digest of some bytes: 64 lower-case digits.
pub fn sha256_hex(data: &[u8]) -> (r: String)
    ensures
        r@ == sha256_text(data@),
        r@.len() == 64,
        forall|i: int| 0 <= i < r@.len() ==> text::is_lower_hex_digit(#[trigger] r@[i]),
{
    let digest = sha256_digest(data);
    proof {
        hex_digits(digest@);
    }
    hex_encode(&digest)
}

/// A prefix followed by exactly 32 hexadecimal digits.
pub open spec fn is_prefixed_hex_id(value: Seq<char>, prefix: Seq<char>) -> bool {
    &&& prefix.is_prefix_of(value)
    &&& value.len() == prefix.len() + 32
    &&& forall|i: int| prefix.len() <= i < value.len() ==> text::is_hex_digit(#[trigger] value[i])
}

pub fn validate_prefixed_hex_id(value: &str, prefix: &str) -> (r: bool)
    ensures
        r == is_prefixed_hex_id(value@, prefix@),
{
    if !text::starts_with(value, prefix) {
        return false;
    }
    let chars = text::chars_of(value);
    let start = text::chars_of(prefix).len();
    if chars.len() - start != 32 {
        return false;
    }
    let mut i: usize = start;
    while i < chars.len()
        invariant
            start == prefix@.len(),
            start <= i <= chars.len(),
            chars@ == value@,
            forall|j: int| start <= j < i ==> text::is_hex_digit(#[trigger] value@[j]),
        decreases chars.len() - i,
    {
        if !text::hex_digit(chars[i]) {
            assert(!text::is_hex_digit(value@[i as int]));
            return false;
        }
        i += 1;
    }
    true
}

/// The bytes of a request: its name in UTF-8, a zero byte, and its body.
pub open spec fn request_bytes(name: Seq<char>, body: Seq<u8>) -> Seq<u8> {
    vstd::utf8::encode_utf8(name) + seq![0u8] + body
}

/// The hexadecimal digest that stands for a named request.
pub open spec fn request_hash(name: Seq<char>, body: Seq<u8>) -> Seq<char> {
    sha256_text(request_bytes(name, body))
}

pub fn hash_request(name: &str, request_body: &[u8]) -> (r: String)
    ensures
        r@ == request_hash(name@, request_body@),
        r@.len() == 64,
        forall|i: int| 0 <= i < r@.len() ==> text::is_lower_hex_digit(#[trigger] r@[i]),
{
    let mut data: Vec<u8> = Vec::new();
    data.extend_from_slice(name.as_bytes());
    data.push(0);
    data.extend_from_slice(request_body);
    assert(data@ =~= request_bytes(name@, request_body@));
    sha256_hex(&data)
}

} // verus!
