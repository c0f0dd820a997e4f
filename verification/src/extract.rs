use vstd::prelude::*;

verus! {

/// Byte-wise XOR of two equally long byte strings.
pub open spec fn spec_xor_bytes(a: Seq<u8>, b: Seq<u8>) -> Seq<u8>
    recommends
        a.len() == b.len(),
{
    Seq::new(a.len(), |i: int| a[i] ^ b[i])
}

/// The initialization vector bound to a salt and 48 bytes of derived key
/// material: the XOR of the salt with the 16-byte IV seed at the front of
/// the material.
pub open spec fn spec_iv(salt: Seq<u8>, derived: Seq<u8>) -> Seq<u8>
    recommends
        salt.len() == 16,
        derived.len() == 48,
{
    spec_xor_bytes(salt, derived.take(16))
}

/// The cipher key inside 48 bytes of derived key material: its trailing
/// 32 bytes.
pub open spec fn spec_cipher_key(derived: Seq<u8>) -> Seq<u8>
    recommends
        derived.len() == 48,
{
    derived.subrange(16, 48)
}

/// XORing with the same byte string twice restores the input: the mask's
/// bytes cancel pointwise, whatever they are.
pub proof fn lemma_xor_bytes_involution(a: Seq<u8>, mask: Seq<u8>)
    ensures
        spec_xor_bytes(spec_xor_bytes(a, mask), mask) == a,
{
    let twice = spec_xor_bytes(spec_xor_bytes(a, mask), mask);
    assert forall|i: int| 0 <= i < a.len() implies twice[i] == a[i] by {
        let u = a[i];
        let v = mask[i];
        assert(((u ^ v) ^ v) == u) by (bit_vector);
    };
    assert(twice =~= a);
}

/// XORing two byte strings with one mask preserves their difference: at
/// each index, the masked bytes differ exactly as the unmasked bytes do.
pub proof fn lemma_xor_bytes_difference(a: Seq<u8>, b: Seq<u8>, mask: Seq<u8>, i: int)
    requires
        a.len() == b.len(),
        0 <= i < a.len(),
    ensures
        spec_xor_bytes(a, mask)[i] ^ spec_xor_bytes(b, mask)[i] == a[i] ^ b[i],
{
    let u = a[i];
    let v = b[i];
    let w = mask[i];
    assert((u ^ w) ^ (v ^ w) == u ^ v) by (bit_vector);
}

/// Byte-wise XOR of two equally long byte strings.
pub fn xor(v1: &[u8], v2: &[u8]) -> (r: Vec<u8>)
    requires
        v1@.len() == v2@.len(),
    ensures
        r@ == spec_xor_bytes(v1@, v2@),
{
    let len: usize = v1.len();
    let mut res: Vec<u8> = Vec::new();
    for i in 0..len
        invariant
            len == v1@.len() == v2@.len(),
            res@ == spec_xor_bytes(v1@, v2@).take(i as int),
    {
        res.push(v1[i] ^ v2[i]);
        proof {
            assert(res@ =~= spec_xor_bytes(v1@, v2@).take(i + 1));
        }
    }
    proof {
        assert(res@ =~= spec_xor_bytes(v1@, v2@));
    }
    res
}

/// Splits 48 bytes of derived key material into the 16-byte IV, bound to
/// the salt by XOR, and the 32-byte cipher key.
pub fn extract(derived: &[u8], salt: &[u8]) -> (r: (Vec<u8>, Vec<u8>))
    requires
        derived@.len() == 48,
        salt@.len() == 16,
    ensures
        r.0@ == spec_iv(salt@, derived@),
        r.1@ == spec_cipher_key(derived@),
        r.0@.len() == 16,
        r.1@.len() == 32,
{
    let seed: &[u8] = vstd::slice::slice_subrange(derived, 0, 16);
    let iv: Vec<u8> = xor(salt, seed);
    let key_slice: &[u8] = vstd::slice::slice_subrange(derived, 16, 48);
    let key: Vec<u8> = vstd::slice::slice_to_vec(key_slice);
    (iv, key)
}

} // verus!
