use sekai::api::sekai_client::{
    refusal, signature_required, signature_url, url_provider_for, Endpoint, SekaiApp,
    UrlProviderKind,
};
use sekai::constants::strings;

use sekai::error::ApiError;
use sekai::models::enums::{Platform, Server};

#[test]
fn sekai_app_keeps_what_it_was_made_with() {
    let app = SekaiApp::new("3.9".to_string(), "393939".to_string(), Platform::Android);
    assert_eq!(app.version(), "3.9");
    assert_eq!(app.hash(), "393939");
    assert_eq!(app.platform(), Platform::Android);
    let app = SekaiApp::new(String::new(), "x".to_string(), Platform::Ios);
    assert_eq!(app.version(), "");
    assert_eq!(app.platform(), Platform::Ios);
}

#[test]
fn each_server_has_its_url_provider() {
    assert_eq!(url_provider_for(Server::Japan), UrlProviderKind::Japan);
    assert_eq!(url_provider_for(Server::Global), UrlProviderKind::Global);
}

#[test]
fn refusals_of_game_version() {
    assert_eq!(
        refusal(Endpoint::GameVersion, Some(403), "boom".to_string()),
        ApiError::InvalidRequest(strings::api::error::INVALID_HASH_VERSION.to_string())
    );
    assert_eq!(
        refusal(Endpoint::GameVersion, Some(404), "boom".to_string()),
        ApiError::InvalidRequest("boom".to_string())
    );
    assert_eq!(
        refusal(Endpoint::GameVersion, None, "boom".to_string()),
        ApiError::InvalidRequest("boom".to_string())
    );
}

#[test]
fn refusals_of_user_signup() {
    assert_eq!(
        refusal(Endpoint::UserSignup, Some(426), "old".to_string()),
        ApiError::InvalidRequest(
            "app version and/or hash are for an older version of the app. use newer values"
                .to_string()
        )
    );
    assert_eq!(
        refusal(Endpoint::UserSignup, Some(403), "no".to_string()),
        ApiError::InvalidRequest("no".to_string())
    );
}

#[test]
fn refusals_of_assetbundle_info() {
    assert_eq!(
        refusal(Endpoint::AssetbundleInfo, Some(403), "x".to_string()),
        ApiError::InvalidRequest("invalid or outdated asset version provided".to_string())
    );
    assert_eq!(
        refusal(Endpoint::AssetbundleInfo, Some(500), "x".to_string()),
        ApiError::InvalidRequest("x".to_string())
    );
}

#[test]
fn other_endpoints_carry_the_error_text() {
    for endpoint in [Endpoint::IssueSignature, Endpoint::UserLogin, Endpoint::System] {
        assert_eq!(
            refusal(endpoint, Some(403), "e".to_string()),
            ApiError::InvalidRequest("e".to_string())
        );
        assert_eq!(
            refusal(endpoint, Some(426), "e".to_string()),
            ApiError::InvalidRequest("e".to_string())
        );
    }
}

#[test]
fn signature_needs_a_url() {
    assert_eq!(signature_url(Some("http://x/api/signature")), Ok("http://x/api/signature"));
    assert_eq!(
        signature_url::<String>(None),
        Err(ApiError::MissingUrl("issue_signature".to_string()))
    );
}

#[test]
fn signature_only_where_the_provider_has_a_url() {
    assert!(signature_required(&Some("http://x/api/signature".to_string())));
    assert!(!signature_required::<String>(&None));
}
