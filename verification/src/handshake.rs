//! The handshake helper: the `Sec-WebSocket-Key` / `Sec-WebSocket-Accept`
//! computation of RFC 6455.

use vstd::prelude::*;

use base64::Engine;
use sha1::Digest;
use vstd::string::StringSliceAdditionalSpecFns;

verus! {

/// The SHA-1 digest of a byte sequence, as `sha1::Sha1` computes it.
pub uninterp spec fn sha1_of(b: Seq<u8>) -> Seq<u8>;

/// The base64 form of a byte sequence under the standard alphabet with
/// padding, as base64's `STANDARD` engine computes it.
pub uninterp spec fn base64_of(b: Seq<u8>) -> Seq<char>;

/// Relies on sha1::Sha1 through the Digest trait: the SHA-1 digest is
/// 20 bytes and a function of the input bytes alone.
#[verifier::external_body]
fn sha1_digest(data: &[u8]) -> (r: Vec<u8>)
    ensures
        r@ == sha1_of(data@),
        r@.len() == 20,
{
    sha1::Sha1::digest(data).to_vec()
}

/// Relies on base64's STANDARD engine: RFC 4648 base64 with padding, a
/// function of the input bytes alone, four characters for every three
/// bytes begun. The engine panics when that length overflows, so inputs
/// that large are excluded.
#[verifier::external_body]
fn base64_encode(data: &[u8]) -> (r: String)
    requires
        ((data@.len() + 2) / 3) * 4 <= usize::MAX as nat,
    ensures
        r@ == base64_of(data@),
        r@.len() == ((data@.len() + 2) / 3) * 4,
{
    base64::engine::general_purpose::STANDARD.encode(data)
}

/// The fixed GUID that RFC 6455 appends to the client's key before
/// hashing, as ASCII bytes.
pub open spec fn accept_guid() -> Seq<u8> {
    seq![
        0x32u8, 0x35u8, 0x38u8, 0x45u8, 0x41u8, 0x46u8, 0x41u8, 0x35u8, 0x2du8, 0x45u8, 0x39u8, 0x31u8, 0x34u8, 0x2du8, 0x34u8,
        0x37u8, 0x44u8, 0x41u8, 0x2du8, 0x39u8, 0x35u8, 0x43u8, 0x41u8, 0x2du8, 0x43u8, 0x35u8, 0x41u8, 0x42u8, 0x30u8, 0x44u8,
        0x43u8, 0x38u8, 0x35u8, 0x42u8, 0x31u8, 0x31u8,
    ]
}

/// The GUID bytes as a vector.
fn accept_guid_bytes() -> (r: Vec<u8>)
    ensures
        r@ == accept_guid(),
{
    let mut v: Vec<u8> = Vec::with_capacity(36);
    v.push(0x32u8);
    v.push(0x35u8);
    v.push(0x38u8);
    v.push(0x45u8);
    v.push(0x41u8);
    v.push(0x46u8);
    v.push(0x41u8);
    v.push(0x35u8);
    v.push(0x2du8);
    v.push(0x45u8);
    v.push(0x39u8);
    v.push(0x31u8);
    v.push(0x34u8);
    v.push(0x2du8);
    v.push(0x34u8);
    v.push(0x37u8);
    v.push(0x44u8);
    v.push(0x41u8);
    v.push(0x2du8);
    v.push(0x39u8);
    v.push(0x35u8);
    v.push(0x43u8);
    v.push(0x41u8);
    v.push(0x2du8);
    v.push(0x43u8);
    v.push(0x35u8);
    v.push(0x41u8);
    v.push(0x42u8);
    v.push(0x30u8);
    v.push(0x44u8);
    v.push(0x43u8);
    v.push(0x38u8);
    v.push(0x35u8);
    v.push(0x42u8);
    v.push(0x31u8);
    v.push(0x31u8);
    assert(v@ =~= accept_guid());
    v
}

/// The `Sec-WebSocket-Accept` value owed for a client key: the base64
/// form of the SHA-1 digest of the key followed by the fixed GUID.
pub fn accept_key(key: &str) -> (r: String)
    ensures
        r@ == base64_of(sha1_of(key.spec_bytes() + accept_guid())),
        r@.len() == 28,
{
    let mut buf: Vec<u8> = vstd::slice::slice_to_vec(key.as_bytes());
    let mut guid = accept_guid_bytes();
    buf.append(&mut guid);
    assert(buf@ =~= key.spec_bytes() + accept_guid());
    let digest = sha1_digest(buf.as_slice());
    base64_encode(digest.as_slice())
}

/// A fresh `Sec-WebSocket-Key`: sixteen random bytes in base64.
pub fn generate_key() -> (r: String)
    ensures
        exists|b: Seq<u8>| b.len() == 16 && r@ == base64_of(b),
        r@.len() == 24,
{
    let mut bytes: Vec<u8> = Vec::with_capacity(16);
    let mut w: usize = 0;
    while w < 4
        invariant
            w <= 4,
            bytes@.len() == 4 * w,
        decreases 4 - w,
    {
        let r = crate::write::random_u32();
        bytes.push(#[verifier::truncate] ((r >> 24) as u8));
        bytes.push(#[verifier::truncate] ((r >> 16) as u8));
        bytes.push(#[verifier::truncate] ((r >> 8) as u8));
        bytes.push(#[verifier::truncate] (r as u8));
        w = w + 1;
    }
    let out = base64_encode(bytes.as_slice());
    proof {
        assert(bytes@.len() == 16 && out@ == base64_of(bytes@));
    }
    out
}

} // verus!
