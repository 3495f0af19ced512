//! Keys and signatures.
use base64::engine::general_purpose::STANDARD;
use base64::Engine;
use ed25519_dalek::{Signature, Verifier, VerifyingKey};
use vstd::prelude::*;

use crate::auth::error::{AuthRejection, AuthRejectionView};
use crate::text;

verus! {

/// What `base64`'s standard engine decodes a text to; nothing where it refuses
/// the text.
pub uninterp spec fn decoded_base64(encoded: Seq<char>) -> Option<Seq<u8>>;

/// Whether `ed25519_dalek::VerifyingKey::from_bytes` takes some 32 bytes for a
/// key.
pub uninterp spec fn is_public_key(bytes: Seq<u8>) -> bool;

/// Whether `ed25519_dalek::VerifyingKey::verify` holds a signature for one that
/// was made over the message with the key's other half.
pub uninterp spec fn signature_holds(key: Seq<u8>, message: Seq<u8>, signature: Seq<u8>) -> bool;

/// The bytes by their view.
pub open spec fn bytes_view(bytes: Option<Vec<u8>>) -> Option<Seq<u8>> {
    match bytes {
        Some(b) => Some(b@),
        None => None,
    }
}

/// `base64::Engine::decode` of the standard engine: what it decodes a text to,
/// or that it refuses the text, depends on the text alone.
#[verifier::external_body]
pub(crate) fn decode_base64(encoded: &str) -> (r: Option<Vec<u8>>)
    ensures
        bytes_view(r) == decoded_base64(encoded@),
{
    STANDARD.decode(encoded).ok()
}

/// `ed25519_dalek::VerifyingKey::from_bytes`: whether 32 bytes are a key
/// depends on them alone.
#[verifier::external_body]
pub(crate) fn check_public_key(bytes: &[u8]) -> (r: bool)
    requires
        bytes@.len() == 32,
    ensures
        r == is_public_key(bytes@),
{
    let bytes: &[u8; 32] = bytes.try_into().expect("32 bytes");
    VerifyingKey::from_bytes(bytes).is_ok()
}

/// `ed25519_dalek::VerifyingKey::verify`: whether 64 bytes are the key's
/// signature of a message depends on the three alone.
#[verifier::external_body]
pub(crate) fn verify_signature(key: &[u8], message: &[u8], signature: &[u8]) -> (r: bool)
    requires
        key@.len() == 32,
        is_public_key(key@),
        signature@.len() == 64,
    ensures
        r == signature_holds(key@, message@, signature@),
{
    let key: &[u8; 32] = key.try_into().expect("32 bytes");
    let signature: &[u8; 64] = signature.try_into().expect("64 bytes");
    let key = VerifyingKey::from_bytes(key).expect("a checked key");
    key.verify(message, &Signature::from_bytes(signature)).is_ok()
}

/// The signature that a header carries: `ed25519:` and 64 bytes in Base64.
pub open spec fn header_signature(value: Seq<char>) -> Result<Seq<u8>, AuthRejectionView> {
    if !"ed25519:"@.is_prefix_of(value) {
        Err(AuthRejectionView::InvalidAuthorizationHeader)
    } else {
        signature_bytes(decoded_base64(value.skip(8)))
    }
}

/// The signature that the decoded part of a header gives.
pub open spec fn signature_bytes(decoded: Option<Seq<u8>>) -> Result<Seq<u8>, AuthRejectionView> {
    match decoded {
        Some(bytes) => if bytes.len() == 64 {
            Ok(bytes)
        } else {
            Err(AuthRejectionView::InvalidAuthorizationHeader)
        },
        None => Err(AuthRejectionView::InvalidAuthorizationHeader),
    }
}

/// The signature that the decoded part of a header gives.
pub fn signature_from_decoded(decoded: Option<Vec<u8>>) -> (r: Result<Vec<u8>, AuthRejection>)
    ensures
        match r {
            Ok(bytes) => signature_bytes(bytes_view(decoded)) == Ok::<_, AuthRejectionView>(
                bytes@,
            ) && bytes@.len() == 64,
            Err(e) => signature_bytes(bytes_view(decoded)) == Err::<Seq<u8>, _>(e@),
        },
{
    match decoded {
        Some(bytes) => {
            if bytes.len() != 64 {
                return Err(AuthRejection::InvalidAuthorizationHeader);
            }
            Ok(bytes)
        },
        None => Err(AuthRejection::InvalidAuthorizationHeader),
    }
}

pub fn parse_signature(value: &str) -> (r: Result<Vec<u8>, AuthRejection>)
    ensures
        match r {
            Ok(bytes) => header_signature(value@) == Ok::<_, AuthRejectionView>(bytes@)
                && bytes@.len() == 64,
            Err(e) => header_signature(value@) == Err::<Seq<u8>, _>(e@),
        },
{
    if !text::starts_with(value, "ed25519:") {
        return Err(AuthRejection::InvalidAuthorizationHeader);
    }
    proof {
        reveal_strlit("ed25519:");
    }
    let encoded = value.substring_char(8, value.unicode_len());
    assert(encoded@ =~= value@.skip(8));
    signature_from_decoded(decode_base64(encoded))
}

} // verus!
