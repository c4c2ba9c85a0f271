//! The login challenge signature.
//!
//! The venue authenticates a session with a keyed hash: the signature is the
//! lowercase hexadecimal rendering of the HMAC-SHA-256 of the timestamp's
//! decimal string under the caller's secret key. The hash itself is computed
//! by an outside cryptography crate; everything around it — the message
//! bytes, the hexadecimal rendering, the shape of the challenge — is
//! verified.

use vstd::prelude::*;

use crate::codec::decimal_bytes;
use crate::codec::encode_decimal;
use crate::codec::hex_of;
use crate::codec::lemma_decimal_bytes_len;

verus! {

/// The HMAC-SHA-256 tag of `msg` under `key`: a pure function of the two,
/// left uninterpreted and computed by the cryptography crate.
pub uninterp spec fn hmac_sha256(key: Seq<u8>, msg: Seq<u8>) -> Seq<u8>;

/// The login signature for a key and a timestamp: the hexadecimal rendering
/// of the HMAC-SHA-256 tag of the timestamp's decimal string.
pub open spec fn spec_signature(secret: Seq<u8>, timestamp: int) -> Seq<char> {
    hex_of(hmac_sha256(secret, decimal_bytes(timestamp)))
}

/// Relies on ring::hmac::Key::new and ring::hmac::sign with the SHA-256
/// algorithm: the tag depends on the key and message bytes alone and is 32
/// bytes long; inputs long enough to overflow the hash's length field are
/// excluded.
#[verifier::external_body]
fn hmac_sign(key: &[u8], msg: &[u8]) -> (r: Vec<u8>)
    requires
        key@.len() < 0x2000000000000000,
        msg@.len() < 0x2000000000000000,
    ensures
        r@ == hmac_sha256(key@, msg@),
        r@.len() == 32,
{
    let k = ring::hmac::Key::new(ring::hmac::HMAC_SHA256, key);
    ring::hmac::sign(&k, msg).as_ref().to_vec()
}

/// Relies on hex::encode: lowercase hexadecimal, two digits per byte, bytes
/// in order.
#[verifier::external_body]
fn hex_encode(bytes: &[u8]) -> (r: String)
    ensures
        r@ == hex_of(bytes@),
{
    hex::encode(bytes)
}

/// The signature of the login challenge issued at millisecond `timestamp`:
/// 64 lowercase hexadecimal characters over the secret and the timestamp's
/// decimal string.
pub fn sign_timestamp(secret: &Vec<u8>, timestamp: i64) -> (r: String)
    requires
        secret@.len() < 0x2000000000000000,
    ensures
        r@ == spec_signature(secret@, timestamp as int),
        r@.len() == 64,
{
    let msg = encode_decimal(timestamp);
    proof {
        lemma_decimal_bytes_len(timestamp as int);
    }
    let tag = hmac_sign(secret.as_slice(), msg.as_slice());
    hex_encode(tag.as_slice())
}

} // verus!
