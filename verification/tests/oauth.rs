use sentinel_agent::config::{
    AgentConfig, ApiConfig, CollectionConfig, Config, DiskConfig, OAuthConfig,
};
use sentinel_agent::http::Field;
use sentinel_agent::oauth::{
    CacheProbe, CacheStage, OAuthError, OAuthManager, StoredToken, TokenAction, TokenEvent,
    TokenResponse,
};
use sentinel_agent::progress::Progress;

fn create_test_config_with_oauth(token_endpoint: &str) -> Config {
    Config {
        agent: AgentConfig { id: "test-agent".to_string(), hostname: None },
        api: ApiConfig {
            endpoint: "https://api.operion.co".to_string(),
            timeout_seconds: Some(5),
            api_key: None,
            oauth: Some(OAuthConfig {
                client_id: "test-client-id".to_string(),
                client_secret: "test-client-secret".to_string(),
                token_endpoint: Some(token_endpoint.to_string()),
                scope: Some("server:register server:metrics".to_string()),
            }),
        },
        collection: CollectionConfig {
            interval_seconds: 60,
            batch_size: None,
            flush_interval_seconds: None,
            disk: DiskConfig {
                enabled: true,
                include_mount_points: None,
                exclude_mount_points: None,
            },
        },
    }
}

fn token_response() -> TokenResponse {
    TokenResponse {
        access_token: "test-access-token".to_string(),
        token_type: "Bearer".to_string(),
        expires_in: 3600,
        scope: Some("server:register server:metrics".to_string()),
    }
}

fn pair(name: &str, value: &str) -> Field {
    Field { name: name.to_string(), value: value.to_string() }
}

fn manager() -> OAuthManager {
    OAuthManager::new(&create_test_config_with_oauth("http://127.0.0.1:9/oauth/token")).unwrap()
}

fn replied(status: u16) -> Option<TokenEvent> {
    Some(TokenEvent::Replied { sent: Ok(status), error_body: None, parsed: Ok(token_response()) })
}

#[test]
fn test_oauth_manager_creation() {
    let config = create_test_config_with_oauth(&format!("{}/oauth/token", "http://127.0.0.1:9"));

    let manager = OAuthManager::new(&config);
    assert!(manager.is_ok());
}

#[test]
fn test_successful_token_request() {
    let manager = manager();
    let now = 1700000000;

    // nothing is cached: the endpoint is asked
    assert!(matches!(manager.get_access_token_at(None, now), TokenAction::ReadCache));
    let request = match manager
        .get_access_token_at(Some(TokenEvent::Cached(CacheProbe::Unreadable)), now)
    {
        TokenAction::Request(request) => request,
        other => panic!("unexpected action: {:?}", other),
    };
    assert_eq!(request.url, "http://127.0.0.1:9/oauth/token");

    // the endpoint answers with status 200 and a token, which is stored and handed out
    let (token, stored) = match manager.get_access_token_at(replied(200), now) {
        TokenAction::Store { token, stored } => (token, stored),
        other => panic!("unexpected action: {:?}", other),
    };
    assert_eq!(stored.expires_at, now + 3600 - 60);
    let token =
        match manager.get_access_token_at(Some(TokenEvent::Stored { token, failure: None }), now) {
            TokenAction::Return(token) => token,
            other => panic!("unexpected action: {:?}", other),
        };
    assert!(token.is_ok());
    assert_eq!(token.unwrap(), "test-access-token");
}

#[test]
fn test_token_caching() {
    let manager = manager();
    let mut requests = 0;
    let mut cache = CacheProbe::Unreadable;

    // First request - should hit the server
    let now = 1700000000;
    let token1 = match manager.get_access_token_at(Some(TokenEvent::Cached(cache)), now) {
        TokenAction::Request(_) => {
            requests += 1;
            match manager.get_access_token_at(replied(200), now) {
                TokenAction::Store { token, stored } => {
                    cache = CacheProbe::Parsed(stored);
                    match manager
                        .get_access_token_at(Some(TokenEvent::Stored { token, failure: None }), now)
                    {
                        TokenAction::Return(Ok(access_token)) => access_token,
                        other => panic!("unexpected action: {:?}", other),
                    }
                }
                other => panic!("unexpected action: {:?}", other),
            }
        }
        other => panic!("unexpected action: {:?}", other),
    };

    // Second request - should use cached token
    let later = now + 3600 - 61;
    let token2 = match manager.get_access_token_at(Some(TokenEvent::Cached(cache)), later) {
        TokenAction::Return(Ok(access_token)) => access_token,
        TokenAction::Request(_) => panic!("the endpoint was asked again"),
        other => panic!("unexpected action: {:?}", other),
    };

    assert_eq!(token1, token2);
    assert_eq!(requests, 1); // Should only be called once due to caching
}

#[test]
fn an_expired_token_is_requested_anew() {
    let manager = manager();
    let stored = OAuthManager::cache_token_at(&token_response(), 1000);
    assert_eq!(stored.expires_at, 4540);
    assert!(!OAuthManager::is_token_expired_at(&stored, 4539));
    assert!(OAuthManager::is_token_expired_at(&stored, 4540));
    assert!(OAuthManager::is_token_expired_at(&stored, 4541));
    let cached = |now| {
        manager.get_access_token_at(
            Some(TokenEvent::Cached(CacheProbe::Parsed(OAuthManager::cache_token_at(
                &token_response(),
                1000,
            )))),
            now,
        )
    };
    assert!(matches!(cached(4539), TokenAction::Return(Ok(_))));
    assert!(matches!(cached(4540), TokenAction::Request(_)));
}

#[test]
fn the_expiry_stays_within_the_clock() {
    let mut token = token_response();
    token.expires_in = 10;
    assert_eq!(OAuthManager::cache_token_at(&token, 20).expires_at, 0);
    assert_eq!(OAuthManager::cache_token_at(&token, 50).expires_at, 0);
    assert_eq!(OAuthManager::cache_token_at(&token, 51).expires_at, 1);
    token.expires_in = u64::MAX;
    assert_eq!(OAuthManager::cache_token_at(&token, 0).expires_at, u64::MAX - 60);
    assert_eq!(OAuthManager::cache_token_at(&token, 60).expires_at, u64::MAX);
    assert_eq!(OAuthManager::cache_token_at(&token, u64::MAX).expires_at, u64::MAX);
}

#[test]
fn the_stored_token_is_the_token_with_its_expiry() {
    assert_eq!(
        OAuthManager::cache_token_at(&token_response(), 1700000000),
        StoredToken {
            access_token: "test-access-token".to_string(),
            token_type: "Bearer".to_string(),
            expires_at: 1700003540,
            scope: Some("server:register server:metrics".to_string()),
        }
    );
    let by_clock = manager().cache_token(&token_response());
    assert!(by_clock.expires_at > 1700003540);
    assert!(!manager().is_token_expired(&by_clock));
    let mut old = by_clock;
    old.expires_at = 0;
    assert!(manager().is_token_expired(&old));
}

#[test]
fn the_request_carries_the_client_credentials() {
    let request = manager().token_request();
    assert_eq!(request.url, "http://127.0.0.1:9/oauth/token");
    assert_eq!(
        request.headers,
        vec![
            pair("Content-Type", "application/x-www-form-urlencoded"),
            pair("User-Agent", "OperionSentinelAgent/1.0"),
        ]
    );
    assert_eq!(
        request.form,
        vec![
            pair("grant_type", "client_credentials"),
            pair("client_id", "test-client-id"),
            pair("client_secret", "test-client-secret"),
            pair("scope", "server:register server:metrics"),
        ]
    );

    let mut config = create_test_config_with_oauth("http://t");
    config.api.oauth.as_mut().unwrap().scope = None;
    let request = OAuthManager::new(&config).unwrap().token_request();
    assert_eq!(request.form.len(), 3);
}

#[test]
fn a_manager_needs_oauth_settings_and_a_token_endpoint() {
    let mut config = create_test_config_with_oauth("http://t");
    config.api.oauth.as_mut().unwrap().token_endpoint = None;
    match OAuthManager::new(&config) {
        Err(error @ OAuthError::Configuration(_)) => assert_eq!(
            error.message(),
            "OAuth configuration error: Token endpoint not configured"
        ),
        _ => panic!("expected a configuration error"),
    }
    config.api.oauth = None;
    match OAuthManager::new(&config) {
        Err(error @ OAuthError::Configuration(_)) => {
            assert_eq!(error.message(), "OAuth configuration error: OAuth not configured")
        }
        _ => panic!("expected a configuration error"),
    }
}

#[test]
fn a_manager_needs_a_cache_file() {
    let config = create_test_config_with_oauth("http://t");
    let built = reqwest::Client::builder().build();
    match OAuthManager::assemble(&config, None, built) {
        Err(error @ OAuthError::Storage(_)) => assert_eq!(
            error.message(),
            "Token storage error: Cannot determine cache directory"
        ),
        _ => panic!("expected a storage error"),
    }
    let built = reqwest::Client::builder().build();
    let manager = OAuthManager::assemble(&config, Some("/c/token.json".to_string()), built);
    assert_eq!(manager.ok().unwrap().token_cache_path(), "/c/token.json");
}

#[test]
fn a_manager_needs_an_http_client() {
    let config = create_test_config_with_oauth("http://t");
    let built = reqwest::Client::builder().user_agent("a\nb").build();
    let expected = format!("HTTP request failed: {}", built.as_ref().err().unwrap());
    match OAuthManager::assemble(&config, Some("/c/token.json".to_string()), built) {
        Err(error @ OAuthError::Http(_)) => assert_eq!(error.message(), expected),
        _ => panic!("expected an HTTP error"),
    }
    // the configuration is looked at before the client
    let mut config = config;
    config.api.oauth = None;
    let built = reqwest::Client::builder().user_agent("a\nb").build();
    assert!(matches!(
        OAuthManager::assemble(&config, None, built),
        Err(OAuthError::Configuration(_))
    ));
}

#[test]
fn the_cache_file_of_a_given_directory() {
    assert_eq!(
        OAuthManager::cache_file_in("/home/u/.cache"),
        "/home/u/.cache/operion/sentinel-agent/oauth_token.json"
    );
    assert_eq!(OAuthManager::cache_file_in(""), "operion/sentinel-agent/oauth_token.json");
}

#[test]
fn the_cache_file_lies_below_the_cache_directory() {
    let expected = dirs::cache_dir()
        .unwrap()
        .join("operion")
        .join("sentinel-agent")
        .join("oauth_token.json");
    assert_eq!(manager().token_cache_path(), expected.to_string_lossy());
}

#[test]
fn the_cache_is_read_or_explains_itself() {
    match OAuthManager::load_cached_token(CacheProbe::Unreadable) {
        Err(error) => assert_eq!(error.message(), "Token storage error: No cached token found"),
        Ok(_) => panic!("expected an error"),
    }
    match OAuthManager::load_cached_token(CacheProbe::Unparseable("eof".to_string())) {
        Err(error) => assert_eq!(error.message(), "Failed to parse response: eof"),
        Ok(_) => panic!("expected an error"),
    }
    let stored = OAuthManager::cache_token_at(&token_response(), 0);
    assert_eq!(
        OAuthManager::load_cached_token(CacheProbe::Parsed(
            OAuthManager::cache_token_at(&token_response(), 0)
        ))
        .ok(),
        Some(stored)
    );
    // a cache that cannot be used leads to a request
    assert!(matches!(
        manager().get_access_token_at(
            Some(TokenEvent::Cached(CacheProbe::Unparseable("eof".to_string()))),
            5
        ),
        TokenAction::Request(_)
    ));
}

#[test]
fn token_request_failures() {
    match OAuthManager::request_new_token(Err("timeout".to_string()), None, Ok(token_response())) {
        Err(error) => assert_eq!(error.message(), "HTTP request failed: timeout"),
        Ok(_) => panic!("expected an error"),
    }
    match OAuthManager::request_new_token(
        Ok(401),
        Some("invalid_client".to_string()),
        Ok(token_response()),
    ) {
        Err(error) => {
            assert_eq!(error.message(), "Token request failed with status 401: invalid_client")
        }
        Ok(_) => panic!("expected an error"),
    }
    match OAuthManager::request_new_token(Ok(500), None, Ok(token_response())) {
        Err(OAuthError::TokenRequest { status, body }) => {
            assert_eq!(status, 500);
            assert_eq!(body, "Unable to read response body");
        }
        _ => panic!("expected a refusal"),
    }
    match OAuthManager::request_new_token(Ok(200), None, Err("missing field".to_string())) {
        Err(error) => assert_eq!(error.message(), "Failed to parse response: missing field"),
        Ok(_) => panic!("expected an error"),
    }
    assert_eq!(
        OAuthManager::request_new_token(Ok(200), None, Ok(token_response())).ok(),
        Some(token_response())
    );
    assert!(matches!(
        manager().get_access_token_at(
            Some(TokenEvent::Replied {
                sent: Ok(403),
                error_body: Some("no".to_string()),
                parsed: Ok(token_response())
            }),
            5
        ),
        TokenAction::Return(Err(OAuthError::TokenRequest { status: 403, .. }))
    ));
}

#[test]
fn a_token_that_cannot_be_cached_is_not_handed_out() {
    let failed = |stage| {
        manager().get_access_token_at(
            Some(TokenEvent::Stored {
                token: token_response(),
                failure: Some((stage, "disk full".to_string())),
            }),
            5,
        )
    };
    for stage in [CacheStage::CreateDirectory, CacheStage::Write, CacheStage::RestrictPermissions] {
        match failed(stage) {
            TokenAction::Return(Err(error)) => {
                assert_eq!(error.message(), "Token storage error: disk full")
            }
            other => panic!("unexpected action: {:?}", other),
        }
    }
    match failed(CacheStage::Serialize) {
        TokenAction::Return(Err(error)) => {
            assert_eq!(error.message(), "Failed to parse response: disk full")
        }
        other => panic!("unexpected action: {:?}", other),
    }
}

#[test]
fn a_token_is_stored_stage_by_stage() {
    let mut stages = Vec::new();
    let mut step = OAuthManager::store_token(None);
    let failure = loop {
        match step {
            Progress::Done(failure) => break failure,
            Progress::Continue(stage) => {
                stages.push(stage);
                step = OAuthManager::store_token(Some((stage, Ok(()))));
            }
        }
    };
    assert_eq!(failure, None);
    assert_eq!(
        stages,
        vec![
            CacheStage::CreateDirectory,
            CacheStage::Serialize,
            CacheStage::Write,
            CacheStage::RestrictPermissions
        ]
    );
    match OAuthManager::store_token(Some((CacheStage::Write, Err("disk full".to_string())))) {
        Progress::Done(failure) => {
            assert_eq!(failure, Some((CacheStage::Write, "disk full".to_string())))
        }
        other => panic!("unexpected step: {:?}", other),
    }
}

#[test]
fn the_clock_drives_the_flow() {
    let mut manager = manager();
    assert!(matches!(manager.get_access_token(None), TokenAction::ReadCache));
    match manager.get_access_token(replied(200)) {
        TokenAction::Store { stored, .. } => assert!(stored.expires_at > 1700003540),
        other => panic!("unexpected action: {:?}", other),
    }
    let fresh = manager.cache_token(&token_response());
    assert!(matches!(
        manager.get_access_token(Some(TokenEvent::Cached(CacheProbe::Parsed(fresh)))),
        TokenAction::Return(Ok(_))
    ));
}

#[test]
fn configuration_error_message() {
    assert_eq!(
        OAuthError::Configuration("x".to_string()).message(),
        "OAuth configuration error: x"
    );
}
