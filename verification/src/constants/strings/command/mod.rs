use vstd::prelude::*;

pub mod error;

verus! {

// ab-info
pub const COMMUNICATING: &'static str = "Communicating with game servers...";
pub const PATHS_SAVED_TO: &'static str = "Paths saved to ";

// ab
pub const RETRIEVING_AB_INFO: &'static str = "Retrieving assetbundle info...";
pub const DOWNLOADING: &'static str = "Downloading files...";
pub const DOWNLOADED: &'static str = "downloaded";
pub const INVALID_RE: &'static str =
    "Invalid filter regular expression provided. No filter will be applied.";

// encrypt suite
pub const SUITE_PROCESSING: &'static str = "Processing suitemaster files...";
pub const SUITE_SAVING: &'static str = "Saving encrypted suitemaster files...";
pub const SUITE_DECRYPTING: &'static str = "Decrypting suitemaster files...";
pub const SUITE_ENCRYPTED_FILE_NAME: &'static str = "_suitemasterfile";

// fetch suite
pub const SUITE_VERSION: &'static str = "[Suite Data Version]:";

// extract hash
pub const EXTRACTING: &'static str = "Extracting version and hash from file...";
pub const EXTRACT_FAIL: &'static str = "No version/hash found in the provided file.";
pub const EXTRACT_SUCCESS: &'static str = "Successfully extracted info from the apk.";
pub const EXTRACT_VERSION: &'static str = "[App Version]:";
pub const EXTRACT_HASH: &'static str = "[App Hash]:";
pub const EXTRACT_MISSING: &'static str = "Not Found";

// fetch save
pub const INHERIT_GETTING_USER_DATA: &'static str = "Getting player information...";
pub const INHERIT_LOGGING_IN: &'static str = "Logging into your account...";
pub const INHERIT_GETTING_SAVE_DATA: &'static str = "Retrieving your account's save data...";
pub const INHERIT_USER_DETAILS: &'static str = "Player Details:";
pub const INHERIT_USER_ID: &'static str = "ID:";
pub const INHERIT_USER_NAME: &'static str = "Name:";
pub const INHERIT_USER_RANK: &'static str = "Rank:";
pub const INHERIT_CONTINUE_CONFIRM: &'static str =
    "⚠️ Do you want to continue?\nThis action will transfer your account from its original device.\nPlease type 'y' to confirm or 'N' to cancel: ";
pub const INHERIT_CANCELLED: &'static str = "Save download was cancelled";
pub const INHERIT_NO_CREDENTIAL: &'static str =
    "The credential contained in the inherit data was None.";
pub const INHERIT_CREDENTIAL_BACKUP_FAIL: &'static str = "An automatic backup failed. You should make note of the following value or your account COULD BE LOST.";
pub const INHERIT_FINISH_WARNING: &'static str = "Don't forget to use the same transfer ID and password to transfer your account back to its original device.";

} // verus!
