use vstd::prelude::*;

use crate::crypto::aes::{decrypt, encrypt, spec_decrypt, spec_encrypt, BLOCK_SIZE};
use crate::error::ApiError;

verus! {

/// The message of the error that `from_slice` returns for a body it cannot decrypt.
pub const DECRYPT_BODY_ERROR: &'static str = "error when decrypting AES encoded body";

/// Decrypts an AES-encoded body of the game API into the MessagePack bytes it holds.
/// A body that cannot be decrypted gives `ApiError::AesMsgpack` with
/// `DECRYPT_BODY_ERROR`; the bytes are then decoded into a value by the caller.
pub fn from_slice(slice: &[u8]) -> (res: Result<Vec<u8>, ApiError>)
    ensures
        match res {
            Ok(msgpack) => spec_decrypt(slice@) == Ok::<Seq<u8>, crate::crypto::aes::DecryptError>(msgpack@),
            Err(e) => spec_decrypt(slice@) is Err && (e matches ApiError::AesMsgpack(msg) && msg@ == DECRYPT_BODY_ERROR@),
        },
{
    match decrypt(slice) {
        Ok(decrypted) => Ok(decrypted),
        Err(_) => Err(ApiError::AesMsgpack(DECRYPT_BODY_ERROR.to_owned())),
    }
}

/// Encrypts the MessagePack encoding of a value into a body for the game API.
/// `from_slice` gives the encoding back from the result.
pub fn into_vec(serialized: &[u8]) -> (out: Vec<u8>)
    requires
        serialized@.len() + BLOCK_SIZE <= usize::MAX,
    ensures
        out@ == spec_encrypt(serialized@),
        spec_decrypt(out@) == Ok::<Seq<u8>, crate::crypto::aes::DecryptError>(serialized@),
{
    encrypt(serialized)
}

} // verus!
