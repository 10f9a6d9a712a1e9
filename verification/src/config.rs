//! Server settings and their defaults.

use crate::error::{Error, ErrorV};
use vstd::prelude::*;
use vstd::string::StringExecFns;

verus! {

/// The name the server reports when none is configured.
pub const DEFAULT_SERVER_NAME: &'static str = "fabric-atelier";

/// The version the server reports.
pub const SERVER_VERSION: &'static str = "0.1.0";

/// Settings of the whole application.
#[derive(Debug, Clone)]
pub struct Settings {
    pub server: ServerConfig,
    pub fabric: FabricConfig,
    pub embeddings: EmbeddingsConfig,
    pub performance: PerformanceConfig,
}

/// Name and version that the server reports about itself.
#[derive(Debug, Clone)]
pub struct ServerConfig {
    pub name: String,
    pub version: String,
}

/// Where the patterns and the Fabric executable are found.
#[derive(Debug, Clone)]
pub struct FabricConfig {
    /// Pattern directory; located automatically when absent.
    pub patterns_dir: Option<String>,
    /// Path of the Fabric executable; searched on `PATH` when absent.
    pub cli_path: Option<String>,
    /// Seconds after which a pattern execution is given up.
    pub timeout_secs: u64,
}

/// Settings of the embedding cache.
#[derive(Debug, Clone)]
pub struct EmbeddingsConfig {
    pub provider: String,
    pub model: String,
    pub dimension: usize,
    pub cache_path: String,
}

/// Performance switches.
#[derive(Debug, Clone)]
pub struct PerformanceConfig {
    pub parallel_loading: bool,
    pub simd_enabled: bool,
    pub memory_mapped_io: bool,
}

/// Default execution timeout in seconds.
pub fn default_timeout() -> (r: u64)
    ensures
        r == 30,
{
    30
}

/// Default embedding provider.
pub fn default_provider() -> (r: String)
    ensures
        r@ == "openai"@,
{
    String::from_str("openai")
}

/// Default embedding model.
pub fn default_model() -> (r: String)
    ensures
        r@ == "text-embedding-3-small"@,
{
    String::from_str("text-embedding-3-small")
}

/// Default embedding dimension.
pub fn default_dimension() -> (r: usize)
    ensures
        r == 1536,
{
    1536
}

/// Default location of the embedding cache.
pub fn default_cache_path() -> (r: String)
    ensures
        r@ == "data/cache/embeddings.parquet"@,
{
    String::from_str("data/cache/embeddings.parquet")
}

/// Default of every performance switch.
pub fn default_true() -> (r: bool)
    ensures
        r,
{
    true
}

/// What became of the attempt to read a configuration file.
#[derive(Debug)]
pub enum ConfigFile {
    /// The file could not be read.
    Unreadable(String),
    /// The file was read but does not hold settings.
    Malformed(String),
    /// The file holds these settings.
    Parsed(Settings),
}

/// The failure that an unusable configuration file at `location` gives;
/// `None` for a file that holds settings.
pub open spec fn config_failure(location: Seq<char>, file: ConfigFile) -> Option<ErrorV> {
    match file {
        ConfigFile::Unreadable(why) => Some(
            ErrorV::ConfigError(
                "Failed to read config file '"@ + location + "': "@ + why@,
            ),
        ),
        ConfigFile::Malformed(why) => Some(
            ErrorV::ConfigError(
                "Failed to parse config file '"@ + location + "': "@ + why@,
            ),
        ),
        ConfigFile::Parsed(_) => None,
    }
}

impl Settings {
    /// Whether these are exactly the built-in defaults.
    pub open spec fn is_default(self) -> bool {
        &&& self.server.name@ == DEFAULT_SERVER_NAME@
        &&& self.server.version@ == SERVER_VERSION@
        &&& self.fabric.patterns_dir is None
        &&& self.fabric.cli_path is None
        &&& self.fabric.timeout_secs == 30
        &&& self.embeddings.provider@ == "openai"@
        &&& self.embeddings.model@ == "text-embedding-3-small"@
        &&& self.embeddings.dimension == 1536
        &&& self.embeddings.cache_path@ == "data/cache/embeddings.parquet"@
        &&& self.performance.parallel_loading
        &&& self.performance.simd_enabled
        &&& self.performance.memory_mapped_io
    }

    /// The settings of the configuration file at `location`, given what
    /// became of the attempt to read it.
    pub fn from_file(location: &str, file: ConfigFile) -> (r: Result<Settings, Error>)
        ensures
            match r {
                Ok(settings) => file == ConfigFile::Parsed(settings),
                Err(e) => config_failure(location@, file) == Some(e@),
            },
    {
        match file {
            ConfigFile::Parsed(settings) => Ok(settings),
            ConfigFile::Unreadable(why) => {
                let mut message = String::from_str("Failed to read config file '");
                message.append(location);
                message.append("': ");
                message.append(why.as_str());
                Err(Error::ConfigError(message))
            },
            ConfigFile::Malformed(why) => {
                let mut message = String::from_str("Failed to parse config file '");
                message.append(location);
                message.append("': ");
                message.append(why.as_str());
                Err(Error::ConfigError(message))
            },
        }
    }

    /// The settings to start with: those of the configuration file at
    /// `location` if there is one, else the defaults. A file that exists
    /// and cannot be used is a failure.
    pub fn load(location: &str, file: Option<ConfigFile>) -> (r: Result<Settings, Error>)
        ensures
            match file {
                None => r matches Ok(settings) && settings.is_default(),
                Some(f) => match r {
                    Ok(settings) => f == ConfigFile::Parsed(settings),
                    Err(e) => config_failure(location@, f) == Some(e@),
                },
            },
    {
        match file {
            Some(f) => Settings::from_file(location, f),
            None => Ok(Settings::default()),
        }
    }
}

impl Default for Settings {
    fn default() -> (r: Settings)
        ensures
            r.is_default(),
    {
        Settings {
            server: ServerConfig {
                name: String::from_str(DEFAULT_SERVER_NAME),
                version: String::from_str(SERVER_VERSION),
            },
            fabric: FabricConfig {
                patterns_dir: None,
                cli_path: None,
                timeout_secs: default_timeout(),
            },
            embeddings: EmbeddingsConfig {
                provider: default_provider(),
                model: default_model(),
                dimension: default_dimension(),
                cache_path: default_cache_path(),
            },
            performance: PerformanceConfig {
                parallel_loading: default_true(),
                simd_enabled: default_true(),
                memory_mapped_io: default_true(),
            },
        }
    }
}

} // verus!
