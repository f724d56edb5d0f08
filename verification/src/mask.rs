//! The masking primitive of RFC 6455: XOR of the payload with a 4-byte key.

use vstd::prelude::*;

verus! {

/// The result of XOR-masking `b` with the 4-byte key `k`.
pub open spec fn masked_seq(b: Seq<u8>, k: Seq<u8>) -> Seq<u8> {
    Seq::new(b.len(), |i: int| b[i] ^ k[i % 4])
}

/// XOR every payload byte with the key byte at its index modulo 4.
/// Applying it twice with the same key restores the payload.
pub fn unmask(payload: &mut Vec<u8>, key: [u8; 4])
    ensures
        final(payload)@ == masked_seq(old(payload)@, key@),
{
    let n = payload.len();
    let mut i: usize = 0;
    while i < n
        invariant
            n == payload.len(),
            i <= n,
            payload@.len() == old(payload)@.len(),
            forall|j: int| 0 <= j < i ==> payload@[j] == old(payload)@[j] ^ key@[j % 4],
            forall|j: int| i <= j < n ==> payload@[j] == old(payload)@[j],
        decreases n - i,
    {
        let b = payload[i];
        let m = key[i % 4];
        payload.set(i, b ^ m);
        i = i + 1;
    }
    assert(payload@ =~= masked_seq(old(payload)@, key@));
}

/// Masking is an involution: masking twice with the same key gives the
/// original buffer back.
pub proof fn lemma_mask_involution(b: Seq<u8>, k: Seq<u8>)
    requires
        k.len() == 4,
    ensures
        masked_seq(masked_seq(b, k), k) == b,
{
    assert forall|i: int| 0 <= i < b.len() implies masked_seq(masked_seq(b, k), k)[i] == b[i] by {
        let x = b[i];
        let y = k[i % 4];
        assert((x ^ y) ^ y == x) by (bit_vector);
    }
    assert(masked_seq(masked_seq(b, k), k) =~= b);
}

} // verus!
