use vstd::prelude::*;

verus! {

pub const SET_COOKIE: &'static str = "set-cookie";
pub const COOKIE: &'static str = "cookie";
pub const SESSION_TOKEN: &'static str = "x-session-token";
pub const APP_VERSION: &'static str = "x-app-version";
pub const APP_HASH: &'static str = "x-app-hash";
pub const PLATFORM: &'static str = "x-platform";
pub const CONTENT_TYPE: &'static str = "content-type";
pub const ACCEPT: &'static str = "accept";

} // verus!
