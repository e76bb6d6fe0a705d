use vstd::prelude::*;

verus! {

/// Which way an assetbundle is to be transformed.
#[derive(Debug, Clone, Copy, PartialEq, Eq, Structural)]
pub enum CryptOperation {
    Encrypt,
    Decrypt,
}

} // verus!
