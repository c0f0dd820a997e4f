use vstd::prelude::*;

use crate::errors::CryptoError;

verus! {

/// The persisted blob: the 16-byte salt followed by the ciphertext,
/// with no header, version tag or algorithm identifier.
pub open spec fn spec_pack(salt: Seq<u8>, ciphertext: Seq<u8>) -> Seq<u8> {
    salt + ciphertext
}

/// Concatenates salt and ciphertext into the persisted blob.
pub fn pack(salt: &[u8], ciphertext: &[u8]) -> (r: Vec<u8>)
    ensures
        r@ == spec_pack(salt@, ciphertext@),
{
    let mut out: Vec<u8> = vstd::slice::slice_to_vec(salt);
    let mut ct: Vec<u8> = vstd::slice::slice_to_vec(ciphertext);
    out.append(&mut ct);
    proof {
        assert(out@ =~= spec_pack(salt@, ciphertext@));
    }
    out
}

/// Splits a blob back into its 16-byte salt and its ciphertext. A blob no
/// longer than the salt was never a valid blob; that is a precondition
/// violation by the caller, not a decryption failure.
pub fn unpack(blob: &[u8]) -> (r: Result<(Vec<u8>, Vec<u8>), CryptoError>)
    ensures
        blob@.len() <= 16 ==> r == Err::<(Vec<u8>, Vec<u8>), CryptoError>(
            CryptoError::PreconditionViolation,
        ),
        blob@.len() > 16 ==> (r matches Ok(p) && p.0@ == blob@.take(16) && p.1@ == blob@.skip(16)
            && p.0@.len() == 16),
{
    if blob.len() <= 16 {
        Err(CryptoError::PreconditionViolation)
    } else {
        let salt_slice: &[u8] = vstd::slice::slice_subrange(blob, 0, 16);
        let ct_slice: &[u8] = vstd::slice::slice_subrange(blob, 16, blob.len());
        let salt: Vec<u8> = vstd::slice::slice_to_vec(salt_slice);
        let ct: Vec<u8> = vstd::slice::slice_to_vec(ct_slice);
        proof {
            assert(salt@ =~= blob@.take(16));
            assert(ct@ =~= blob@.skip(16));
        }
        Ok((salt, ct))
    }
}

/// Packing a salt and a ciphertext and unpacking the result gives the
/// same salt and ciphertext back, whenever the ciphertext is not empty.
pub proof fn lemma_pack_unpack(salt: Seq<u8>, ciphertext: Seq<u8>)
    requires
        salt.len() == 16,
        ciphertext.len() > 0,
    ensures
        spec_pack(salt, ciphertext).len() > 16,
        spec_pack(salt, ciphertext).take(16) == salt,
        spec_pack(salt, ciphertext).skip(16) == ciphertext,
{
    assert(spec_pack(salt, ciphertext).take(16) =~= salt);
    assert(spec_pack(salt, ciphertext).skip(16) =~= ciphertext);
}

} // verus!
