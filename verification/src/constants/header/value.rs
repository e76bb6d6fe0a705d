use vstd::prelude::*;

verus! {

pub const OCTET_STREAM: &'static str = "application/octet-stream";
pub const PLATFORM_ANDROID: &'static str = "android";
pub const PLATFORM_IOS: &'static str = "ios";
pub const DEVICE_MODEL: &'static str = "Android";
pub const OPERATING_SYSTEM: &'static str = "Android";

} // verus!
