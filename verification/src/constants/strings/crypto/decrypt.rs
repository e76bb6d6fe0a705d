use vstd::prelude::*;

verus! {

pub const PROCESS: &'static str = "Decrypting";
pub const PROCESSED: &'static str = "decrypted";

} // verus!
