//! Agent configuration: the settings, their defaults and their validation.

use crate::host::{joined_path, path_join, system_hostname, user_config_dir, user_home_dir};
use crate::text::{
    blank, clone_optional_text, clone_optional_texts, concat2, is_blank, owned, text_of,
    texts_of,
};
use vstd::prelude::*;

verus! {

/// Timeout of a call to the collection API when none is configured.
pub const DEFAULT_API_TIMEOUT_SECONDS: u64 = 30;

/// Capacity of the metric buffer when none is configured.
pub const DEFAULT_BATCH_SIZE: usize = 100;

/// Seconds between two flushes when none are configured.
pub const DEFAULT_FLUSH_INTERVAL_SECONDS: u64 = 10;

/// The system-wide configuration file.
pub const SYSTEM_CONFIG_FILE: &'static str = "/etc/operion/agent.yaml";

/// The configuration file of the current directory.
pub const LOCAL_CONFIG_FILE: &'static str = "agent.yaml";

/// The directory of configurations below a home directory.
pub const HIDDEN_CONFIG_DIRECTORY: &'static str = ".config";

/// The directory of the agent below a configuration directory.
pub const CONFIG_DIRECTORY: &'static str = "operion";

/// The name of a configuration file.
pub const CONFIG_FILE_NAME: &'static str = "agent.yaml";

/// The settings of the agent.
#[derive(Debug)]
pub struct Config {
    pub agent: AgentConfig,
    pub api: ApiConfig,
    pub collection: CollectionConfig,
}

/// Who the agent is.
#[derive(Debug)]
pub struct AgentConfig {
    pub id: String,
    pub hostname: Option<String>,
}

/// Where the collection API is and how the agent identifies itself to it.
#[derive(Debug)]
pub struct ApiConfig {
    pub endpoint: String,
    pub timeout_seconds: Option<u64>,
    pub api_key: Option<String>,
    pub oauth: Option<OAuthConfig>,
}

/// Client credentials for the token endpoint.
#[derive(Debug)]
pub struct OAuthConfig {
    pub client_id: String,
    pub client_secret: String,
    pub token_endpoint: Option<String>,
    pub scope: Option<String>,
}

/// How often samples are taken and sent, and how many are kept.
#[derive(Debug)]
pub struct CollectionConfig {
    pub interval_seconds: u64,
    pub batch_size: Option<usize>,
    pub flush_interval_seconds: Option<u64>,
    pub disk: DiskConfig,
}

/// Which disks are sampled.  A mount point is sampled where it holds a
/// pattern of the include list, if there is one, and holds no pattern of the
/// exclude list.
#[derive(Debug)]
pub struct DiskConfig {
    pub enabled: bool,
    pub include_mount_points: Option<Vec<String>>,
    pub exclude_mount_points: Option<Vec<String>>,
}

/// Why a configuration could not be used.
#[derive(Debug)]
pub enum ConfigError {
    FileRead(String),
    Parse(String),
    Validation(String),
}

/// What a [`DiskConfig`] says, with its lists as sequences.
pub ghost struct DiskFilter {
    pub enabled: bool,
    pub include_patterns: Option<Seq<String>>,
    pub exclude_patterns: Option<Seq<String>>,
}

impl View for DiskConfig {
    type V = DiskFilter;

    open spec fn view(&self) -> DiskFilter {
        DiskFilter {
            enabled: self.enabled,
            include_patterns: texts_of(self.include_mount_points),
            exclude_patterns: texts_of(self.exclude_mount_points),
        }
    }
}

impl Clone for OAuthConfig {
    fn clone(&self) -> (out: Self)
        ensures
            out == *self,
    {
        OAuthConfig {
            client_id: self.client_id.clone(),
            client_secret: self.client_secret.clone(),
            token_endpoint: clone_optional_text(&self.token_endpoint),
            scope: clone_optional_text(&self.scope),
        }
    }
}

impl Clone for DiskConfig {
    fn clone(&self) -> (out: Self)
        ensures
            out@ == self@,
    {
        DiskConfig {
            enabled: self.enabled,
            include_mount_points: clone_optional_texts(&self.include_mount_points),
            exclude_mount_points: clone_optional_texts(&self.exclude_mount_points),
        }
    }
}

impl Clone for AgentConfig {
    fn clone(&self) -> (out: Self)
        ensures
            out == *self,
    {
        AgentConfig { id: self.id.clone(), hostname: clone_optional_text(&self.hostname) }
    }
}

impl Clone for ApiConfig {
    fn clone(&self) -> (out: Self)
        ensures
            out == *self,
    {
        ApiConfig {
            endpoint: self.endpoint.clone(),
            timeout_seconds: self.timeout_seconds,
            api_key: clone_optional_text(&self.api_key),
            oauth: match &self.oauth {
                Some(oauth) => Some(oauth.clone()),
                None => None,
            },
        }
    }
}

impl Clone for CollectionConfig {
    fn clone(&self) -> (out: Self)
        ensures
            out.interval_seconds == self.interval_seconds,
            out.batch_size == self.batch_size,
            out.flush_interval_seconds == self.flush_interval_seconds,
            out.disk@ == self.disk@,
    {
        CollectionConfig {
            interval_seconds: self.interval_seconds,
            batch_size: self.batch_size,
            flush_interval_seconds: self.flush_interval_seconds,
            disk: self.disk.clone(),
        }
    }
}

impl Clone for Config {
    fn clone(&self) -> (out: Self)
        ensures
            out.agent == self.agent,
            out.api == self.api,
            out.collection.interval_seconds == self.collection.interval_seconds,
            out.collection.batch_size == self.collection.batch_size,
            out.collection.flush_interval_seconds == self.collection.flush_interval_seconds,
            out.collection.disk@ == self.collection.disk@,
    {
        Config {
            agent: self.agent.clone(),
            api: self.api.clone(),
            collection: self.collection.clone(),
        }
    }
}

impl ConfigError {
    /// The text that describes the error.
    pub open spec fn message_text(self) -> Seq<char> {
        match self {
            ConfigError::FileRead(detail) => "Failed to read config file: "@ + detail@,
            ConfigError::Parse(detail) => "Failed to parse config file: "@ + detail@,
            ConfigError::Validation(detail) => "Config validation error: "@ + detail@,
        }
    }

    /// Describes the error in words.
    pub fn message(&self) -> (out: String)
        ensures
            out@ == self.message_text(),
    {
        match self {
            ConfigError::FileRead(detail) => concat2(
                "Failed to read config file: ",
                detail.as_str(),
            ),
            ConfigError::Parse(detail) => concat2(
                "Failed to parse config file: ",
                detail.as_str(),
            ),
            ConfigError::Validation(detail) => concat2(
                "Config validation error: ",
                detail.as_str(),
            ),
        }
    }
}

/// The candidate at `at` is a path at which a file was found.
pub open spec fn present_at(candidates: Seq<Option<String>>, exists: Seq<bool>, at: int) -> bool {
    0 <= at < candidates.len() && at < exists.len() && candidates[at] is Some && exists[at]
}

/// The configuration file that is used when none is named: the first
/// candidate at which a file was found; where none was found anywhere, the
/// first candidate that there is; `None` where there is no candidate.
pub open spec fn default_config_path(
    candidates: Seq<Option<String>>,
    exists: Seq<bool>,
    chosen: Option<String>,
) -> bool {
    if exists|at: int| present_at(candidates, exists, at) {
        exists|at: int|
            #![trigger present_at(candidates, exists, at)]
            present_at(candidates, exists, at) && chosen == candidates[at] && forall|before: int|
                0 <= before < at ==> !present_at(candidates, exists, before)
    } else if exists|at: int| 0 <= at < candidates.len() && (#[trigger] candidates[at]) is Some {
        exists|at: int|
            #![trigger candidates[at]]
            0 <= at < candidates.len() && candidates[at] is Some && chosen == candidates[at]
                && forall|before: int| 0 <= before < at ==> (#[trigger] candidates[before]) is None
    } else {
        chosen is None
    }
}

impl Config {
    /// The configuration file below the home directory `home`:
    /// `.config/operion/agent.yaml`.
    pub open spec fn home_config_file(home: Seq<char>) -> Seq<char> {
        joined_path(
            joined_path(joined_path(home, HIDDEN_CONFIG_DIRECTORY@), CONFIG_DIRECTORY@),
            CONFIG_FILE_NAME@,
        )
    }

    /// The configuration file below the configuration directory
    /// `config_dir`: `operion/agent.yaml`.
    pub open spec fn user_config_file(config_dir: Seq<char>) -> Seq<char> {
        joined_path(joined_path(config_dir, CONFIG_DIRECTORY@), CONFIG_FILE_NAME@)
    }

    /// `candidates` are the places in which a configuration file is looked
    /// for by a user with the home directory `home_dir` and the
    /// configuration directory `config_dir`, in their order: below `.config`
    /// in the home directory, below the configuration directory, the
    /// system-wide file, and the current directory.  A directory that the
    /// user does not have leaves its place empty.
    pub open spec fn candidates_of(
        home_dir: Option<Seq<char>>,
        config_dir: Option<Seq<char>>,
        candidates: Seq<Option<String>>,
    ) -> bool {
        &&& candidates.len() == 4
        &&& match home_dir {
            Some(home) => candidates[0] is Some && candidates[0]->0@ == Self::home_config_file(
                home,
            ),
            None => candidates[0] is None,
        }
        &&& match config_dir {
            Some(dir) => candidates[1] is Some && candidates[1]->0@ == Self::user_config_file(dir),
            None => candidates[1] is None,
        }
        &&& candidates[2] is Some && candidates[2]->0@ == SYSTEM_CONFIG_FILE@
        &&& candidates[3] is Some && candidates[3]->0@ == LOCAL_CONFIG_FILE@
    }

    /// The places in which a configuration file is looked for by a user
    /// with the home directory `home_dir` and the configuration directory
    /// `config_dir`.
    pub fn config_file_candidates_in(
        home_dir: Option<String>,
        config_dir: Option<String>,
    ) -> (candidates: Vec<Option<String>>)
        ensures
            Self::candidates_of(text_of(home_dir), text_of(config_dir), candidates@),
    {
        let in_home: Option<String> = match home_dir {
            Some(home) => {
                let hidden: String = path_join(home.as_str(), HIDDEN_CONFIG_DIRECTORY);
                let directory: String = path_join(hidden.as_str(), CONFIG_DIRECTORY);
                Some(path_join(directory.as_str(), CONFIG_FILE_NAME))
            },
            None => None,
        };
        let in_config_dir: Option<String> = match config_dir {
            Some(dir) => {
                let directory: String = path_join(dir.as_str(), CONFIG_DIRECTORY);
                Some(path_join(directory.as_str(), CONFIG_FILE_NAME))
            },
            None => None,
        };
        let mut candidates: Vec<Option<String>> = Vec::new();
        candidates.push(in_home);
        candidates.push(in_config_dir);
        candidates.push(Some(owned(SYSTEM_CONFIG_FILE)));
        candidates.push(Some(owned(LOCAL_CONFIG_FILE)));
        candidates
    }

    /// The places in which a configuration file is looked for, in their
    /// order: below `.config` in the user's home directory, below the
    /// platform's configuration directory, the system-wide file, and the
    /// current directory.  A directory that the user does not have leaves
    /// its place empty.
    pub fn config_file_candidates() -> (candidates: Vec<Option<String>>)
        ensures
            exists|home_dir: Option<Seq<char>>, config_dir: Option<Seq<char>>|
                Self::candidates_of(home_dir, config_dir, candidates@),
            candidates@.len() == 4,
            candidates@[2] is Some && candidates@[2]->0@ == SYSTEM_CONFIG_FILE@,
            candidates@[3] is Some && candidates@[3]->0@ == LOCAL_CONFIG_FILE@,
    {
        let home_dir: Option<String> = user_home_dir();
        let config_dir: Option<String> = user_config_dir();
        let ghost home: Option<Seq<char>> = text_of(home_dir);
        let ghost dir: Option<Seq<char>> = text_of(config_dir);
        let candidates: Vec<Option<String>> = Self::config_file_candidates_in(home_dir, config_dir);
        assert(Self::candidates_of(home, dir, candidates@));
        candidates
    }

    /// Picks the configuration file among `candidates`, `exists` saying of
    /// each whether a file was found there.
    pub fn find_default_config_path(
        candidates: &Vec<Option<String>>,
        exists: &Vec<bool>,
    ) -> (chosen: Option<String>)
        ensures
            default_config_path(candidates@, exists@, chosen),
    {
        let mut at: usize = 0;
        while at < candidates.len() && at < exists.len()
            invariant
                forall|before: int| 0 <= before < at ==> !present_at(candidates@, exists@, before),
            decreases candidates.len() - at,
        {
            if exists[at] {
                if let Some(path) = &candidates[at] {
                    assert(present_at(candidates@, exists@, at as int));
                    return Some(path.clone());
                }
            }
            at = at + 1;
        }
        let mut at: usize = 0;
        while at < candidates.len()
            invariant
                !exists|found: int| present_at(candidates@, exists@, found),
                forall|before: int| 0 <= before < at ==> (#[trigger] candidates@[before]) is None,
            decreases candidates.len() - at,
        {
            if let Some(path) = &candidates[at] {
                return Some(path.clone());
            }
            at = at + 1;
        }
        None
    }

    /// The first rule that the configuration breaks, by its complaint, if it
    /// breaks any.  The rules are tried in this order: the agent id and the
    /// API endpoint are not empty, the collection interval is not zero, and
    /// an API key, where one is given, is more than white space.
    pub open spec fn complaint(self) -> Option<Seq<char>> {
        if self.agent.id@.len() == 0 {
            Some("Agent ID cannot be empty"@)
        } else if self.api.endpoint@.len() == 0 {
            Some("API endpoint cannot be empty"@)
        } else if self.collection.interval_seconds == 0 {
            Some("Collection interval must be greater than 0"@)
        } else if self.api.api_key is Some && blank(self.api.api_key->0@) {
            Some("API key cannot be empty"@)
        } else {
            None
        }
    }

    /// Checks the configuration against its rules.
    pub fn validate(&self) -> (checked: Result<(), ConfigError>)
        ensures
            match self.complaint() {
                None => checked is Ok,
                Some(text) => checked matches Err(ConfigError::Validation(detail)) && detail@
                    == text,
            },
    {
        if self.agent.id.as_str().is_empty() {
            return Err(ConfigError::Validation(owned("Agent ID cannot be empty")));
        }
        if self.api.endpoint.as_str().is_empty() {
            return Err(ConfigError::Validation(owned("API endpoint cannot be empty")));
        }
        if self.collection.interval_seconds == 0 {
            return Err(
                ConfigError::Validation(owned("Collection interval must be greater than 0")),
            );
        }
        if let Some(api_key) = &self.api.api_key {
            if is_blank(api_key.as_str()) {
                return Err(ConfigError::Validation(owned("API key cannot be empty")));
            }
        }
        Ok(())
    }

    /// The configured host name; the machine's own name where none is
    /// configured.
    pub fn get_hostname(&self) -> (name: String)
        ensures
            self.agent.hostname is Some ==> name == self.agent.hostname->0,
    {
        match &self.agent.hostname {
            Some(name) => name.clone(),
            None => system_hostname(),
        }
    }

    /// The timeout of a call to the collection API, in seconds.
    pub open spec fn api_timeout_seconds(&self) -> u64 {
        match self.api.timeout_seconds {
            Some(seconds) => seconds,
            None => DEFAULT_API_TIMEOUT_SECONDS,
        }
    }

    /// The most samples that are kept for the next flush.
    pub open spec fn batch_size(&self) -> usize {
        match self.collection.batch_size {
            Some(size) => size,
            None => DEFAULT_BATCH_SIZE,
        }
    }

    /// The seconds between two flushes.
    pub open spec fn flush_interval_seconds(&self) -> u64 {
        match self.collection.flush_interval_seconds {
            Some(seconds) => seconds,
            None => DEFAULT_FLUSH_INTERVAL_SECONDS,
        }
    }

    /// Whether any credential for the remote platform is configured: an API
    /// key or OAuth client credentials.
    pub open spec fn credentials_configured(&self) -> bool {
        self.api.api_key is Some || self.api.oauth is Some
    }

    /// The token endpoint of the OAuth settings, if both are present.
    pub open spec fn oauth_token_endpoint(&self) -> Option<String> {
        match self.api.oauth {
            Some(oauth) => oauth.token_endpoint,
            None => None,
        }
    }

    /// The scope of the OAuth settings, if both are present.
    pub open spec fn oauth_scope(&self) -> Option<String> {
        match self.api.oauth {
            Some(oauth) => oauth.scope,
            None => None,
        }
    }

    #[verifier::when_used_as_spec(api_timeout_seconds)]
    pub fn get_api_timeout_seconds(&self) -> (seconds: u64)
        ensures
            seconds == self.api_timeout_seconds(),
    {
        match self.api.timeout_seconds {
            Some(seconds) => seconds,
            None => DEFAULT_API_TIMEOUT_SECONDS,
        }
    }

    #[verifier::when_used_as_spec(batch_size)]
    pub fn get_batch_size(&self) -> (size: usize)
        ensures
            size == self.batch_size(),
    {
        match self.collection.batch_size {
            Some(size) => size,
            None => DEFAULT_BATCH_SIZE,
        }
    }

    #[verifier::when_used_as_spec(flush_interval_seconds)]
    pub fn get_flush_interval_seconds(&self) -> (seconds: u64)
        ensures
            seconds == self.flush_interval_seconds(),
    {
        match self.collection.flush_interval_seconds {
            Some(seconds) => seconds,
            None => DEFAULT_FLUSH_INTERVAL_SECONDS,
        }
    }

    #[verifier::when_used_as_spec(credentials_configured)]
    pub fn has_credentials(&self) -> (yes: bool)
        ensures
            yes == self.credentials_configured(),
    {
        self.api.api_key.is_some() || self.api.oauth.is_some()
    }

    /// The token endpoint of the OAuth settings, if both are present.
    #[verifier::when_used_as_spec(oauth_token_endpoint)]
    pub fn get_oauth_token_endpoint(&self) -> (endpoint: Option<String>)
        ensures
            endpoint == self.oauth_token_endpoint(),
    {
        match &self.api.oauth {
            Some(oauth) => clone_optional_text(&oauth.token_endpoint),
            None => None,
        }
    }

    /// The scope of the OAuth settings, if both are present.
    #[verifier::when_used_as_spec(oauth_scope)]
    pub fn get_oauth_scope(&self) -> (scope: Option<String>)
        ensures
            scope == self.oauth_scope(),
    {
        match &self.api.oauth {
            Some(oauth) => clone_optional_text(&oauth.scope),
            None => None,
        }
    }
}

} // verus!
