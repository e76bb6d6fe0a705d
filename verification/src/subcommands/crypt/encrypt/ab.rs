use vstd::prelude::*;

use crate::constants::strings;
use crate::crypto::assetbundle::CryptOperation;
use crate::subcommands::crypt::{CryptArgs, CryptStrings};

verus! {

/// Arguments of the command that encrypts assetbundles.
#[derive(Debug)]
pub struct EncryptAbArgs {
    /// If the input is a directory, whether to recursively encrypt valid files in that directory
    pub recursive: bool,
    /// The maximum number of files to encrypt simultaneously
    pub concurrent: usize,
    /// Path to the file or directory to encrypt
    pub in_path: String,
    /// Path to a directory or file to output to. If not provided, files are encrypted in-place.
    pub out_path: Option<String>,
}

/// Encrypts a file/folder using the provided arguments: the job that the command
/// hands to the assetbundle runner.
pub fn encrypt_ab(args: &EncryptAbArgs) -> (job: CryptArgs<'_>)
    ensures
        job.in_path@ == args.in_path@,
        job.recursive == args.recursive,
        job.concurrent == args.concurrent,
        job.operation == CryptOperation::Encrypt,
        job.strings.process@ == strings::crypto::encrypt::PROCESS@,
        job.strings.processed@ == strings::crypto::encrypt::PROCESSED@,
        *job.out_path == args.out_path,
{
    CryptArgs {
        in_path: args.in_path.as_str(),
        recursive: args.recursive,
        concurrent: args.concurrent,
        operation: CryptOperation::Encrypt,
        strings: CryptStrings {
            process: strings::crypto::encrypt::PROCESS,
            processed: strings::crypto::encrypt::PROCESSED,
        },
        out_path: &args.out_path,
    }
}

} // verus!
