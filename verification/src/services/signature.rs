use vstd::prelude::*;

use crate::handlers::admin::{hex_lower, sha256, sha256_digest, to_hex_lower};
use crate::text::str_equal;

verus! {

/// The HMAC key block: the key (or its SHA-256 digest where it is longer than the
/// 64-byte block) padded with zero bytes to 64 bytes.
pub open spec fn key_block(key: Seq<u8>) -> Seq<u8> {
    let k = if key.len() > 64 {
        sha256(key)
    } else {
        key
    };
    k + Seq::new((64 - k.len()) as nat, |i: int| 0u8)
}

/// Every byte of `k` combined by exclusive or with `pad`.
pub open spec fn xor_with(k: Seq<u8>, pad: u8) -> Seq<u8> {
    Seq::new(k.len(), |i: int| k[i] ^ pad)
}

/// HMAC-SHA256 of a message under a key (RFC 2104).
pub open spec fn hmac_sha256(key: Seq<u8>, msg: Seq<u8>) -> Seq<u8> {
    let k = key_block(key);
    sha256(xor_with(k, 0x5cu8) + sha256(xor_with(k, 0x36u8) + msg))
}

fn key_block_exec(key: &[u8]) -> (r: Vec<u8>)
    ensures
        r@ == key_block(key@),
        r@.len() == 64,
{
    let mut k: Vec<u8> = if key.len() > 64 {
        sha256_digest(key)
    } else {
        let mut v: Vec<u8> = Vec::new();
        let n = key.len();
        for i in 0..n
            invariant
                n == key@.len(),
                v@ == key@.take(i as int),
        {
            v.push(key[i]);
            assert(key@.take(i + 1) =~= key@.take(i as int).push(key@[i as int]));
        }
        assert(key@.take(n as int) =~= key@);
        v
    };
    let ghost base = k@;
    let start = k.len();
    for i in start..64
        invariant
            start == base.len(),
            start <= 64,
            k@ == base + Seq::new((i - start) as nat, |j: int| 0u8),
    {
        k.push(0u8);
        assert(base + Seq::new((i + 1 - start) as nat, |j: int| 0u8) =~= (base + Seq::new(
            (i - start) as nat,
            |j: int| 0u8,
        )).push(0u8));
    }
    k
}

fn padded_with(k: &[u8], pad: u8, msg: &[u8]) -> (r: Vec<u8>)
    ensures
        r@ == xor_with(k@, pad) + msg@,
{
    let mut v: Vec<u8> = Vec::new();
    let n = k.len();
    for i in 0..n
        invariant
            n == k@.len(),
            v@ == xor_with(k@.take(i as int), pad),
    {
        v.push(k[i] ^ pad);
        assert(xor_with(k@.take(i + 1), pad) =~= xor_with(k@.take(i as int), pad).push(k@[i as int] ^ pad));
    }
    assert(k@.take(n as int) =~= k@);
    let ghost head = v@;
    let m = msg.len();
    for i in 0..m
        invariant
            m == msg@.len(),
            v@ == head + msg@.take(i as int),
    {
        v.push(msg[i]);
        assert(head + msg@.take(i + 1) =~= (head + msg@.take(i as int)).push(msg@[i as int]));
    }
    assert(msg@.take(m as int) =~= msg@);
    v
}

/// HMAC-SHA256 of a message under a key.
pub fn hmac_sha256_exec(key: &[u8], msg: &[u8]) -> (r: Vec<u8>)
    ensures
        r@ == hmac_sha256(key@, msg@),
{
    let k = key_block_exec(key);
    let inner_input = padded_with(k.as_slice(), 0x36u8, msg);
    let inner = sha256_digest(inner_input.as_slice());
    let outer_input = padded_with(k.as_slice(), 0x5cu8, inner.as_slice());
    sha256_digest(outer_input.as_slice())
}

/// Whether a `sentry-hook-signature` header signs a request body: it must be the
/// lower-case hexadecimal HMAC-SHA256 of the body under the client secret.
pub fn verify_sentry_signature(body: &[u8], signature: &str, secret: &str) -> (r: bool)
    ensures
        r == (signature@ == hex_lower(hmac_sha256(vstd::utf8::encode_utf8(secret@), body@))),
{
    let mac = hmac_sha256_exec(secret.as_bytes(), body);
    let expected = to_hex_lower(mac.as_slice());
    str_equal(signature, expected.as_str())
}

} // verus!
