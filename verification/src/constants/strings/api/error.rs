use vstd::prelude::*;

verus! {

pub const UPGRADE_REQUIRED: &'static str =
    "app version and/or hash are for an older version of the app. use newer values";
pub const INVALID_HASH_VERSION: &'static str = "invalid app version and/or hash provided";
pub const SET_COOKIE_NOT_FOUND: &'static str = "set-cookie header not found";
pub const FORBIDDEN_ASSETBUNDLE_INFO: &'static str = "invalid or outdated asset version provided";
pub const INVALID_INHERIT_CREDENTIALS: &'static str = "could not find any account with the provided transfer id or password. ensure that both values are correct";
pub const NOT_FOUND_USER_AUTH: &'static str = "(404: not found) error when logging in to an account. ensure that the app version and hash values are correct";

} // verus!
