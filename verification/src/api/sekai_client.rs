use vstd::prelude::*;

use crate::constants::strings;
use crate::error::ApiError;
use crate::models::enums::{Platform, Server};

verus! {

/// What a `SekaiApp` holds, as mathematical values.
pub struct SekaiAppView {
    pub version: Seq<char>,
    pub hash: Seq<char>,
    pub platform: Platform,
}

/// A simple struct that stores information about the game's app.
pub struct SekaiApp {
    version: String,
    hash: String,
    platform: Platform,
}

impl View for SekaiApp {
    type V = SekaiAppView;

    closed spec fn view(&self) -> SekaiAppView {
        SekaiAppView { version: self.version@, hash: self.hash@, platform: self.platform }
    }
}

impl SekaiApp {
    pub fn new(version: String, hash: String, platform: Platform) -> (app: Self)
        ensures
            app@ == (SekaiAppView { version: version@, hash: hash@, platform }),
    {
        Self { version, hash, platform }
    }

    /// The app version that requests present.
    pub fn version(&self) -> (v: &str)
        ensures
            v@ == self@.version,
    {
        self.version.as_str()
    }

    /// The app hash that requests present.
    pub fn hash(&self) -> (h: &str)
        ensures
            h@ == self@.hash,
    {
        self.hash.as_str()
    }

    /// The platform that requests present.
    pub fn platform(&self) -> (p: Platform)
        ensures
            p == self@.platform,
    {
        self.platform
    }
}

/// The URL provider that `SekaiClient::new` picks for a server.
#[derive(Debug, Clone, Copy, PartialEq, Eq, Structural)]
pub enum UrlProviderKind {
    Japan,
    Global,
}

/// The URL provider of the given server's API.
pub fn url_provider_for(server: Server) -> (kind: UrlProviderKind)
    ensures
        server == Server::Japan ==> kind == UrlProviderKind::Japan,
        server == Server::Global ==> kind == UrlProviderKind::Global,
{
    match server {
        Server::Japan => UrlProviderKind::Japan,
        Server::Global => UrlProviderKind::Global,
    }
}

/// The endpoints of the game API that the client queries.
#[derive(Debug, Clone, Copy, PartialEq, Eq, Structural)]
pub enum Endpoint {
    IssueSignature,
    GameVersion,
    UserSignup,
    UserLogin,
    AssetbundleInfo,
    System,
}

/// HTTP 403 Forbidden.
pub const STATUS_FORBIDDEN: u16 = 403;

/// HTTP 426 Upgrade Required.
pub const STATUS_UPGRADE_REQUIRED: u16 = 426;

/// The name under which a missing signature URL is reported.
pub const ISSUE_SIGNATURE_URL_NAME: &'static str = "issue_signature";

/// The message of the error with which a refused request to `endpoint` fails, given
/// the status of the refusal, where there is one, and the text of the HTTP error:
/// an outdated app version or hash, and an unknown asset version, have messages of
/// their own; every other refusal carries the text of the HTTP error.
pub open spec fn spec_refusal_message(endpoint: Endpoint, status: Option<u16>, error_text: Seq<char>) -> Seq<char> {
    if endpoint == Endpoint::GameVersion && status == Some(STATUS_FORBIDDEN) {
        strings::api::error::INVALID_HASH_VERSION@
    } else if endpoint == Endpoint::UserSignup && status == Some(STATUS_UPGRADE_REQUIRED) {
        strings::api::error::UPGRADE_REQUIRED@
    } else if endpoint == Endpoint::AssetbundleInfo && status == Some(STATUS_FORBIDDEN) {
        strings::api::error::FORBIDDEN_ASSETBUNDLE_INFO@
    } else {
        error_text
    }
}

/// The error with which a request to `endpoint` fails when the server answers it
/// with an error status.
pub fn refusal(endpoint: Endpoint, status: Option<u16>, error_text: String) -> (e: ApiError)
    ensures
        (e matches ApiError::InvalidRequest(msg) && msg@ == spec_refusal_message(endpoint, status, error_text@)),
{
    let forbidden = match status {
        Some(code) => code == STATUS_FORBIDDEN,
        None => false,
    };
    let upgrade_required = match status {
        Some(code) => code == STATUS_UPGRADE_REQUIRED,
        None => false,
    };
    match endpoint {
        Endpoint::GameVersion if forbidden => {
            ApiError::InvalidRequest(strings::api::error::INVALID_HASH_VERSION.to_owned())
        },
        Endpoint::UserSignup if upgrade_required => {
            ApiError::InvalidRequest(strings::api::error::UPGRADE_REQUIRED.to_owned())
        },
        Endpoint::AssetbundleInfo if forbidden => {
            ApiError::InvalidRequest(strings::api::error::FORBIDDEN_ASSETBUNDLE_INFO.to_owned())
        },
        _ => ApiError::InvalidRequest(error_text),
    }
}

/// The URL to which the signature request goes, or, where the URL provider has
/// none, `ApiError::MissingUrl` naming the endpoint.
pub fn signature_url<U>(url: Option<U>) -> (res: Result<U, ApiError>)
    ensures
        match url {
            Some(u) => res == Ok::<U, ApiError>(u),
            None => (res matches Err(ApiError::MissingUrl(name)) && name@ == ISSUE_SIGNATURE_URL_NAME@),
        },
{
    match url {
        Some(u) => Ok(u),
        None => Err(ApiError::MissingUrl(ISSUE_SIGNATURE_URL_NAME.to_owned())),
    }
}

/// Whether a new client asks for the CloudFront signature: only where its URL
/// provider has a signature URL.
pub fn signature_required<U>(url: &Option<U>) -> (b: bool)
    ensures
        b == url is Some,
{
    url.is_some()
}

} // verus!
