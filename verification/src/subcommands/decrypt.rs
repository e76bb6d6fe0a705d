use vstd::prelude::*;

use crate::crypto::assetbundle::CryptOperation;

verus! {

/// Arguments of the command that decrypts assetbundles.
#[derive(Debug)]
pub struct DecryptArgs {
    /// If the input is a directory, whether to recursively decrypt valid files in that directory
    pub recursive: bool,
    /// The maximum number of files to decrypt simultaneously
    pub concurrent: usize,
    /// Path to the file or directory to decrypt
    pub in_path: String,
    /// Path to a directory or file to output to. If not provided, files are decrypted in-place
    pub out_path: Option<String>,
}

/// What a decryption of assetbundles is to work on and how.
#[derive(Debug)]
pub struct DecryptJob<'a> {
    pub in_path: &'a str,
    pub recursive: bool,
    pub concurrent: usize,
    pub operation: CryptOperation,
    pub out_path: &'a Option<String>,
}

/// The job that the decrypt command hands to the assetbundle runner.
pub fn decrypt(args: &DecryptArgs) -> (job: DecryptJob<'_>)
    ensures
        job.in_path@ == args.in_path@,
        job.recursive == args.recursive,
        job.concurrent == args.concurrent,
        job.operation == CryptOperation::Decrypt,
        *job.out_path == args.out_path,
{
    DecryptJob {
        in_path: args.in_path.as_str(),
        recursive: args.recursive,
        concurrent: args.concurrent,
        operation: CryptOperation::Decrypt,
        out_path: &args.out_path,
    }
}

} // verus!
