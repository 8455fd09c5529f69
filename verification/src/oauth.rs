//! The access token of the client-credentials flow and its cache.
//!
//! A token that was obtained is kept in a file together with the instant at
//! which it stops being used.  As long as that instant lies ahead, the token
//! is taken from the file and the token endpoint is not asked.

use crate::clock::instant;
use crate::config::Config;
use crate::host::{joined_path, path_join, unix_time_seconds, user_cache_dir};
use crate::http::{
    build_http_client, field, field_texts, http_error_text, is_success_status, success_status,
    Field,
};
use crate::progress::Progress;
use crate::text::{
    clone_optional_text, concat2, concat4, decimal, decimal_text, owned, text_of,
};
use vstd::prelude::*;

verus! {

/// Seconds by which a token is retired before the server would refuse it.
pub const EXPIRY_MARGIN_SECONDS: u64 = 60;

/// Timeout of a call to the token endpoint, in seconds.
pub const TOKEN_TIMEOUT_SECONDS: u64 = 30;

/// The permissions of the cache file: its owner may read and write it.
pub const TOKEN_FILE_MODE: u32 = 0o600;

/// The directory of the platform below a cache directory.
pub const CACHE_DIRECTORY: &'static str = "operion";

/// The directory of the agent below that of the platform.
pub const AGENT_DIRECTORY: &'static str = "sentinel-agent";

/// The name of the cache file.
pub const TOKEN_FILE_NAME: &'static str = "oauth_token.json";

/// What the token endpoint answers.
#[derive(Debug, PartialEq, Eq)]
pub struct TokenResponse {
    pub access_token: String,
    pub token_type: String,
    pub expires_in: u64,
    pub scope: Option<String>,
}

/// What the cache file holds.
#[derive(Debug, PartialEq, Eq)]
pub struct StoredToken {
    pub access_token: String,
    pub token_type: String,
    /// The instant from which on the token is no longer used, in seconds
    /// since the Unix epoch.
    pub expires_at: u64,
    pub scope: Option<String>,
}

/// Why no access token could be had.
#[derive(Debug)]
pub enum OAuthError {
    Configuration(String),
    Http(String),
    TokenRequest { status: u16, body: String },
    Parse(String),
    Storage(String),
}

impl OAuthError {
    /// The text that describes the error.
    pub open spec fn message_text(self) -> Seq<char> {
        match self {
            OAuthError::Configuration(detail) => "OAuth configuration error: "@ + detail@,
            OAuthError::Http(detail) => "HTTP request failed: "@ + detail@,
            OAuthError::TokenRequest { status, body } => "Token request failed with status "@
                + decimal_text(status as nat) + ": "@ + body@,
            OAuthError::Parse(detail) => "Failed to parse response: "@ + detail@,
            OAuthError::Storage(detail) => "Token storage error: "@ + detail@,
        }
    }

    /// Describes the error in words.
    pub fn message(&self) -> (out: String)
        ensures
            out@ == self.message_text(),
    {
        match self {
            OAuthError::Configuration(detail) => concat2(
                "OAuth configuration error: ",
                detail.as_str(),
            ),
            OAuthError::Http(detail) => concat2("HTTP request failed: ", detail.as_str()),
            OAuthError::TokenRequest { status, body } => {
                let code: String = decimal(*status as u64);
                concat4("Token request failed with status ", code.as_str(), ": ", body.as_str())
            },
            OAuthError::Parse(detail) => concat2("Failed to parse response: ", detail.as_str()),
            OAuthError::Storage(detail) => concat2("Token storage error: ", detail.as_str()),
        }
    }
}

/// What was found in the cache file.
#[derive(Debug)]
pub enum CacheProbe {
    /// The file is missing or could not be read.
    Unreadable,
    /// The file was read and does not hold a token.
    Unparseable(String),
    /// The file holds this token.
    Parsed(StoredToken),
}

/// The stages of putting a token into the cache file, in their order.
#[derive(Debug, Clone, Copy, PartialEq, Eq, Structural)]
pub enum CacheStage {
    /// Create the directory of the cache file and what is missing above it.
    CreateDirectory,
    /// Write the token down as JSON.
    Serialize,
    /// Write the JSON to the cache file.
    Write,
    /// Restrict the cache file to `TOKEN_FILE_MODE`.
    RestrictPermissions,
}

impl CacheStage {
    /// The stage that follows `self`, if any.
    pub open spec fn successor(self) -> Option<CacheStage> {
        match self {
            CacheStage::CreateDirectory => Some(CacheStage::Serialize),
            CacheStage::Serialize => Some(CacheStage::Write),
            CacheStage::Write => Some(CacheStage::RestrictPermissions),
            CacheStage::RestrictPermissions => None,
        }
    }
}

/// How the storing of a token goes on after `done`, a stage and how it
/// ended; with nothing done yet, how it begins.  A stage that fails ends it
/// with that failure; when the last stage has succeeded, it has: there is no
/// failure.
pub open spec fn storing_next(done: Option<(CacheStage, Result<(), String>)>) -> Progress<
    CacheStage,
    Option<(CacheStage, String)>,
> {
    match done {
        None => Progress::Continue(CacheStage::CreateDirectory),
        Some((stage, Err(reason))) => Progress::Done(Some((stage, reason))),
        Some((stage, Ok(_))) => match stage.successor() {
            Some(next) => Progress::Continue(next),
            None => Progress::Done(None),
        },
    }
}

/// The request that asks the token endpoint for a token.
#[derive(Debug)]
pub struct TokenRequest {
    pub url: String,
    pub headers: Vec<Field>,
    pub form: Vec<Field>,
}

/// What has happened on the way to an access token.
#[derive(Debug)]
pub enum TokenEvent {
    /// The cache file was looked at.
    Cached(CacheProbe),
    /// The token endpoint was asked: `sent` holds the status code of its
    /// answer or the reason why there was none, `error_body` the body of a
    /// refusal where it could be read, and `parsed` the payload of an answer
    /// that was accepted, or the reason why it holds no token.
    Replied {
        sent: Result<u16, String>,
        error_body: Option<String>,
        parsed: Result<TokenResponse, String>,
    },
    /// The token was put into the cache file, or that failed at a stage for
    /// a reason.
    Stored { token: TokenResponse, failure: Option<(CacheStage, String)> },
}

/// What is to happen next on the way to an access token.
#[derive(Debug)]
pub enum TokenAction {
    /// Look at the cache file.
    ReadCache,
    /// Ask the token endpoint.
    Request(TokenRequest),
    /// Put `stored` into the cache file; `token` is what the endpoint gave.
    Store { token: TokenResponse, stored: StoredToken },
    /// The call is over: this is the access token, or the error.
    Return(Result<String, OAuthError>),
}

/// The instant from which on a token obtained at `now` with a lifetime of
/// `lifetime` seconds is no longer used: the end of the lifetime less the
/// safety margin, kept within the range of the clock.
pub open spec fn expiry_instant(now: u64, lifetime: u64) -> u64 {
    let instant = now + lifetime - EXPIRY_MARGIN_SECONDS;
    if instant < 0 {
        0
    } else if instant > u64::MAX {
        u64::MAX
    } else {
        instant as u64
    }
}

/// A token is expired from its instant of expiry on.
pub open spec fn expired(token: StoredToken, now: u64) -> bool {
    now >= token.expires_at
}

/// What the cache file is to hold for a token obtained at `now`.
pub open spec fn stored_token(token: TokenResponse, now: u64) -> StoredToken {
    StoredToken {
        access_token: token.access_token,
        token_type: token.token_type,
        expires_at: expiry_instant(now, token.expires_in),
        scope: token.scope,
    }
}

/// The access token that the cache gives at `now`, if it gives one: the
/// file holds a token and the token is not expired.
pub open spec fn cached_access_token(probe: CacheProbe, now: u64) -> Option<String> {
    match probe {
        CacheProbe::Parsed(token) => if expired(token, now) {
            None
        } else {
            Some(token.access_token)
        },
        _ => None,
    }
}

/// The form of a token request.
pub open spec fn token_form(
    client_id: Seq<char>,
    client_secret: Seq<char>,
    scope: Option<String>,
) -> Seq<(Seq<char>, Seq<char>)> {
    let fixed = seq![
        ("grant_type"@, "client_credentials"@),
        ("client_id"@, client_id),
        ("client_secret"@, client_secret),
    ];
    match scope {
        Some(scope) => fixed.push(("scope"@, scope@)),
        None => fixed,
    }
}

/// The headers of a token request.
pub open spec fn token_headers() -> Seq<(Seq<char>, Seq<char>)> {
    seq![
        ("Content-Type"@, "application/x-www-form-urlencoded"@),
        ("User-Agent"@, "OperionSentinelAgent/1.0"@),
    ]
}

/// The result of asking the token endpoint.
pub open spec fn request_result(
    sent: Result<u16, String>,
    error_body: Option<String>,
    parsed: Result<TokenResponse, String>,
    outcome: Result<TokenResponse, OAuthError>,
) -> bool {
    match sent {
        Err(reason) => outcome matches Err(OAuthError::Http(detail)) && detail == reason,
        Ok(status) => if success_status(status) {
            match parsed {
                Ok(token) => outcome == Ok::<TokenResponse, OAuthError>(token),
                Err(reason) => outcome matches Err(OAuthError::Parse(detail)) && detail == reason,
            }
        } else {
            outcome matches Err(OAuthError::TokenRequest { status: code, body: said }) && code
                == status && said@ == (match error_body {
                Some(text) => text@,
                None => "Unable to read response body"@,
            })
        },
    }
}

/// The error of a failure to put a token into the cache file: a token that
/// cannot be written down is a parse error, all else a storage error.
pub open spec fn cache_error(stage: CacheStage, reason: String) -> OAuthError {
    match stage {
        CacheStage::Serialize => OAuthError::Parse(reason),
        _ => OAuthError::Storage(reason),
    }
}

/// Obtains access tokens with the client credentials and keeps the last
/// one in a cache file.
pub struct OAuthManager {
    client: reqwest::Client,
    client_id: String,
    client_secret: String,
    token_endpoint: String,
    scope: Option<String>,
    token_cache_path: String,
}

impl OAuthManager {
    pub closed spec fn client_id(&self) -> String {
        self.client_id
    }

    pub closed spec fn client_secret(&self) -> String {
        self.client_secret
    }

    pub closed spec fn token_endpoint(&self) -> String {
        self.token_endpoint
    }

    pub closed spec fn scope(&self) -> Option<String> {
        self.scope
    }

    pub closed spec fn cache_path(&self) -> String {
        self.token_cache_path
    }

    /// The HTTP client that the token requests go through.
    pub closed spec fn http_client(&self) -> reqwest::Client {
        self.client
    }

    /// The manager's settings are those of `config`.
    pub open spec fn configured_by(&self, config: Config) -> bool {
        &&& config.api.oauth is Some
        &&& self.client_id() == config.api.oauth->0.client_id
        &&& self.client_secret() == config.api.oauth->0.client_secret
        &&& Some(self.token_endpoint()) == config.oauth_token_endpoint()
        &&& self.scope() == config.oauth_scope()
    }

    /// The complaint about a configuration that a manager cannot work with.
    pub open spec fn complaint(config: Config) -> Option<Seq<char>> {
        if config.api.oauth is None {
            Some("OAuth not configured"@)
        } else if config.oauth_token_endpoint() is None {
            Some("Token endpoint not configured"@)
        } else {
            None
        }
    }

    /// A manager for the credentials of `config` whose cache file is
    /// `cache_file`, around the HTTP client that was built for it.  The
    /// configuration is looked at first, then the cache file, then the
    /// client.
    pub fn assemble(
        config: &Config,
        cache_file: Option<String>,
        built: Result<reqwest::Client, reqwest::Error>,
    ) -> (made: Result<Self, OAuthError>)
        ensures
            match Self::complaint(*config) {
                Some(text) => made matches Err(OAuthError::Configuration(detail)) && detail@
                    == text,
                None => match cache_file {
                    None => made matches Err(OAuthError::Storage(detail)) && detail@
                        == "Cannot determine cache directory"@,
                    Some(file) => match built {
                        Err(_) => made matches Err(OAuthError::Http(_)),
                        Ok(client) => made matches Ok(manager) && manager.configured_by(*config)
                            && manager.cache_path() == file && manager.http_client() == client,
                    },
                },
            },
    {
        let oauth_config = match &config.api.oauth {
            Some(oauth_config) => oauth_config,
            None => {
                return Err(OAuthError::Configuration(owned("OAuth not configured")));
            },
        };
        let token_endpoint: String = match config.get_oauth_token_endpoint() {
            Some(endpoint) => endpoint,
            None => {
                return Err(OAuthError::Configuration(owned("Token endpoint not configured")));
            },
        };
        let scope: Option<String> = config.get_oauth_scope();
        let token_cache_path: String = match cache_file {
            Some(file) => file,
            None => {
                return Err(OAuthError::Storage(owned("Cannot determine cache directory")));
            },
        };
        match built {
            Ok(client) => Ok(
                OAuthManager {
                    client,
                    client_id: oauth_config.client_id.clone(),
                    client_secret: oauth_config.client_secret.clone(),
                    token_endpoint,
                    scope,
                    token_cache_path,
                },
            ),
            Err(error) => Err(OAuthError::Http(http_error_text(&error))),
        }
    }

    /// The cache file of a user whose cache directory is `cache_dir`:
    /// `operion/sentinel-agent/oauth_token.json` below that directory.
    pub open spec fn cache_file(cache_dir: Seq<char>) -> Seq<char> {
        joined_path(
            joined_path(joined_path(cache_dir, CACHE_DIRECTORY@), AGENT_DIRECTORY@),
            TOKEN_FILE_NAME@,
        )
    }

    /// The cache file of a user whose cache directory is `cache_dir`.
    pub fn cache_file_in(cache_dir: &str) -> (file: String)
        ensures
            file@ == Self::cache_file(cache_dir@),
    {
        let platform: String = path_join(cache_dir, CACHE_DIRECTORY);
        let agent: String = path_join(platform.as_str(), AGENT_DIRECTORY);
        path_join(agent.as_str(), TOKEN_FILE_NAME)
    }

    /// A manager for the credentials of `config`.  Its cache file lies
    /// below the user's cache directory; a user without one has no manager.
    pub fn new(config: &Config) -> (made: Result<Self, OAuthError>)
        ensures
            match Self::complaint(*config) {
                Some(text) => made matches Err(OAuthError::Configuration(detail)) && detail@
                    == text,
                None => match made {
                    Ok(manager) => manager.configured_by(*config) && exists|cache_dir: Seq<char>|
                        manager.cache_path()@ == Self::cache_file(cache_dir),
                    Err(error) => error is Http || (error matches OAuthError::Storage(detail)
                        && detail@ == "Cannot determine cache directory"@),
                },
            },
    {
        let cache_file: Option<String> = match user_cache_dir() {
            Some(dir) => Some(Self::cache_file_in(dir.as_str())),
            None => None,
        };
        let ghost file: Option<Seq<char>> = text_of(cache_file);
        let made: Result<Self, OAuthError> = Self::assemble(
            config,
            cache_file,
            build_http_client(TOKEN_TIMEOUT_SECONDS),
        );
        assert(made is Ok ==> file is Some && made->Ok_0.cache_path()@ == file->0);
        made
    }

    /// The HTTP client that the token requests are to be sent with.
    pub fn http(&self) -> (client: &reqwest::Client)
        ensures
            *client == self.http_client(),
    {
        &self.client
    }

    /// The file that the token is cached in.
    pub fn token_cache_path(&self) -> (path: &str)
        ensures
            path@ == self.cache_path()@,
    {
        self.token_cache_path.as_str()
    }

    /// Whether `token` is expired at `now`.
    pub fn is_token_expired_at(token: &StoredToken, now: u64) -> (yes: bool)
        ensures
            yes == expired(*token, now),
    {
        now >= token.expires_at
    }

    /// Whether `token` is expired by the clock: at the instant that the
    /// clock shows, the token is at or past its instant of expiry.  A token
    /// that expires at zero is expired whatever the clock shows.
    pub fn is_token_expired(&self, token: &StoredToken) -> (yes: bool)
        ensures
            exists|now: u64| yes == expired(*token, now),
            token.expires_at == 0 ==> yes,
    {
        let now: u64 = Self::clock();
        let yes: bool = Self::is_token_expired_at(token, now);
        assert(yes == expired(*token, now));
        yes
    }

    fn clock() -> u64 {
        instant(unix_time_seconds())
    }

    /// The token of the cache file, or the error of looking for it.
    pub fn load_cached_token(probe: CacheProbe) -> (loaded: Result<StoredToken, OAuthError>)
        ensures
            match probe {
                CacheProbe::Unreadable => loaded matches Err(OAuthError::Storage(detail))
                    && detail@ == "No cached token found"@,
                CacheProbe::Unparseable(reason) => loaded matches Err(OAuthError::Parse(detail))
                    && detail == reason,
                CacheProbe::Parsed(token) => loaded == Ok::<StoredToken, OAuthError>(token),
            },
    {
        match probe {
            CacheProbe::Unreadable => Err(OAuthError::Storage(owned("No cached token found"))),
            CacheProbe::Unparseable(reason) => Err(OAuthError::Parse(reason)),
            CacheProbe::Parsed(token) => Ok(token),
        }
    }

    /// The request for a new token: the client credentials, with the scope
    /// where one is configured, as a form.
    pub fn token_request(&self) -> (request: TokenRequest)
        ensures
            request.url == self.token_endpoint(),
            field_texts(request.headers@) == token_headers(),
            field_texts(request.form@) == token_form(
                self.client_id()@,
                self.client_secret()@,
                self.scope(),
            ),
    {
        let mut form: Vec<Field> = Vec::new();
        form.push(field("grant_type", "client_credentials"));
        form.push(field("client_id", self.client_id.as_str()));
        form.push(field("client_secret", self.client_secret.as_str()));
        if let Some(scope) = &self.scope {
            form.push(field("scope", scope.as_str()));
        }
        let mut headers: Vec<Field> = Vec::new();
        headers.push(field("Content-Type", "application/x-www-form-urlencoded"));
        headers.push(field("User-Agent", "OperionSentinelAgent/1.0"));
        assert(field_texts(form@) =~= token_form(
            self.client_id()@,
            self.client_secret()@,
            self.scope(),
        ));
        assert(field_texts(headers@) =~= token_headers());
        TokenRequest { url: self.token_endpoint.clone(), headers, form }
    }

    /// The result of asking the token endpoint: a request that did not
    /// complete is an HTTP error, a refusal carries the status and what the
    /// server said, and an answer that was accepted gives the token where
    /// its payload holds one.
    pub fn request_new_token(
        sent: Result<u16, String>,
        error_body: Option<String>,
        parsed: Result<TokenResponse, String>,
    ) -> (outcome: Result<TokenResponse, OAuthError>)
        ensures
            request_result(sent, error_body, parsed, outcome),
    {
        match sent {
            Err(reason) => Err(OAuthError::Http(reason)),
            Ok(status) => if is_success_status(status) {
                match parsed {
                    Ok(token) => Ok(token),
                    Err(reason) => Err(OAuthError::Parse(reason)),
                }
            } else {
                let body: String = match error_body {
                    Some(text) => text,
                    None => owned("Unable to read response body"),
                };
                Err(OAuthError::TokenRequest { status, body })
            },
        }
    }

    /// What the cache file is to hold for `token`, obtained at `now`.
    pub fn cache_token_at(token: &TokenResponse, now: u64) -> (stored: StoredToken)
        ensures
            stored == stored_token(*token, now),
    {
        let end: u128 = now as u128 + token.expires_in as u128;
        let expires_at: u64 = if end < EXPIRY_MARGIN_SECONDS as u128 {
            0
        } else if end - EXPIRY_MARGIN_SECONDS as u128 > u64::MAX as u128 {
            u64::MAX
        } else {
            (end - EXPIRY_MARGIN_SECONDS as u128) as u64
        };
        StoredToken {
            access_token: token.access_token.clone(),
            token_type: token.token_type.clone(),
            expires_at,
            scope: clone_optional_text(&token.scope),
        }
    }

    /// What the cache file is to hold for `token`, obtained now.
    pub fn cache_token(&self, token: &TokenResponse) -> (stored: StoredToken)
        ensures
            exists|now: u64| stored == stored_token(*token, now),
    {
        Self::cache_token_at(token, Self::clock())
    }

    /// One step of putting a token into the cache file.
    pub fn store_token(done: Option<(CacheStage, Result<(), String>)>) -> (step: Progress<
        CacheStage,
        Option<(CacheStage, String)>,
    >)
        ensures
            step == storing_next(done),
    {
        match done {
            None => Progress::Continue(CacheStage::CreateDirectory),
            Some((stage, Err(reason))) => Progress::Done(Some((stage, reason))),
            Some((stage, Ok(_))) => match stage {
                CacheStage::CreateDirectory => Progress::Continue(CacheStage::Serialize),
                CacheStage::Serialize => Progress::Continue(CacheStage::Write),
                CacheStage::Write => Progress::Continue(CacheStage::RestrictPermissions),
                CacheStage::RestrictPermissions => Progress::Done(None),
            },
        }
    }

    /// The error of a failure to put a token into the cache file.
    pub fn cache_failure(stage: CacheStage, reason: String) -> (error: OAuthError)
        ensures
            error == cache_error(stage, reason),
    {
        match stage {
            CacheStage::Serialize => OAuthError::Parse(reason),
            _ => OAuthError::Storage(reason),
        }
    }

    /// What `get_access_token_at` does at `now`, given what has happened.
    pub open spec fn token_flow(
        &self,
        event: Option<TokenEvent>,
        now: u64,
        action: TokenAction,
    ) -> bool {
        match event {
            None => action is ReadCache,
            Some(TokenEvent::Cached(probe)) => match cached_access_token(probe, now) {
                Some(token) => action == TokenAction::Return(Ok(token)),
                None => action matches TokenAction::Request(request) && request.url
                    == self.token_endpoint() && field_texts(request.headers@) == token_headers()
                    && field_texts(request.form@) == token_form(
                    self.client_id()@,
                    self.client_secret()@,
                    self.scope(),
                ),
            },
            Some(TokenEvent::Replied { sent, error_body, parsed }) => {
                if sent is Ok && success_status(sent->Ok_0) && parsed is Ok {
                    action == (TokenAction::Store {
                        token: parsed->Ok_0,
                        stored: stored_token(parsed->Ok_0, now),
                    })
                } else {
                    action matches TokenAction::Return(Err(error)) && request_result(
                        sent,
                        error_body,
                        parsed,
                        Err(error),
                    )
                }
            },
            Some(TokenEvent::Stored { token, failure }) => match failure {
                None => action == TokenAction::Return(Ok(token.access_token)),
                Some(failed) => action == TokenAction::Return(
                    Err(cache_error(failed.0, failed.1)),
                ),
            },
        }
    }

    /// One step on the way to an access token, the time being `now`.  The
    /// cache is looked at first; a token that it holds and that is not
    /// expired is the result, and the endpoint is not asked.  Otherwise the
    /// endpoint is asked, and what it gives is put into the cache before it
    /// is handed out; a failure of either ends the call with its error.
    pub fn get_access_token_at(&self, event: Option<TokenEvent>, now: u64) -> (action: TokenAction)
        ensures
            self.token_flow(event, now, action),
    {
        match event {
            None => TokenAction::ReadCache,
            Some(TokenEvent::Cached(probe)) => {
                if let Ok(token) = Self::load_cached_token(probe) {
                    if !Self::is_token_expired_at(&token, now) {
                        return TokenAction::Return(Ok(token.access_token));
                    }
                }
                TokenAction::Request(self.token_request())
            },
            Some(TokenEvent::Replied { sent, error_body, parsed }) => {
                match Self::request_new_token(sent, error_body, parsed) {
                    Ok(token) => {
                        let stored: StoredToken = Self::cache_token_at(&token, now);
                        TokenAction::Store { token, stored }
                    },
                    Err(error) => TokenAction::Return(Err(error)),
                }
            },
            Some(TokenEvent::Stored { token, failure }) => match failure {
                None => TokenAction::Return(Ok(token.access_token)),
                Some((stage, reason)) => TokenAction::Return(
                    Err(Self::cache_failure(stage, reason)),
                ),
            },
        }
    }

    /// One step on the way to an access token, at the instant that the clock
    /// shows.
    pub fn get_access_token(&mut self, event: Option<TokenEvent>) -> (action: TokenAction)
        ensures
            *final(self) == *old(self),
            exists|now: u64| old(self).token_flow(event, now, action),
    {
        let now: u64 = Self::clock();
        let action: TokenAction = self.get_access_token_at(event, now);
        assert(self.token_flow(event, now, action));
        action
    }
}

/// A token is asked for once in its time: when the token that the endpoint
/// gave at `obtained` is found in the cache at `now`, before its instant of
/// expiry, the cache gives that token and the endpoint is not asked again.
/// From that instant on the cache gives nothing.
pub proof fn lemma_token_reused_until_expiry(token: TokenResponse, obtained: u64, now: u64)
    ensures
        now < expiry_instant(obtained, token.expires_in) ==> cached_access_token(
            CacheProbe::Parsed(stored_token(token, obtained)),
            now,
        ) == Some(token.access_token),
        now >= expiry_instant(obtained, token.expires_in) ==> cached_access_token(
            CacheProbe::Parsed(stored_token(token, obtained)),
            now,
        ) is None,
{
}

/// A token whose lifetime reaches beyond the safety margin is good for
/// that lifetime less the margin, counted from the instant at which it was
/// obtained, as long as the clock can show the end.
pub proof fn lemma_expiry_is_lifetime_less_margin(obtained: u64, lifetime: u64)
    requires
        lifetime >= EXPIRY_MARGIN_SECONDS,
        obtained + lifetime - EXPIRY_MARGIN_SECONDS <= u64::MAX,
    ensures
        expiry_instant(obtained, lifetime) == obtained + lifetime - EXPIRY_MARGIN_SECONDS,
        expiry_instant(obtained, lifetime) >= obtained,
{
}

} // verus!
