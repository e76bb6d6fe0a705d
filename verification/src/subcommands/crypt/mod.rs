use vstd::prelude::*;

use crate::crypto::assetbundle::CryptOperation;

pub mod encrypt;

verus! {

/// The words with which progress over assetbundles is reported.
#[derive(Debug, Clone, Copy)]
pub struct CryptStrings {
    /// What is being done, as in "Encrypting".
    pub process: &'static str,
    /// What has been done, as in "encrypted".
    pub processed: &'static str,
}

/// What an encryption or decryption of assetbundles is to work on and how.
#[derive(Debug)]
pub struct CryptArgs<'a> {
    pub in_path: &'a str,
    pub recursive: bool,
    pub concurrent: usize,
    pub operation: CryptOperation,
    pub strings: CryptStrings,
    pub out_path: &'a Option<String>,
}

} // verus!
