use vstd::prelude::*;

verus! {

pub const PROCESS: &'static str = "Encrypting";
pub const PROCESSED: &'static str = "encrypted";

} // verus!
