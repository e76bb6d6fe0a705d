use vstd::prelude::*;

verus! {

pub const NO_RECENT_VERSION: &'static str = "most recent game version not found";
pub const SUITE_DESERIALIZE_ERROR: &'static str = "error when deserializing suitemasterfile: ";

} // verus!
