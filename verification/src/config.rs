//! Service configuration: the settings file's schema (which settings are
//! required, which have defaults) and the deployment secret.

use vstd::prelude::*;

verus! {

/// Where and how the HTTP server listens.
#[derive(Debug, Clone)]
pub struct HttpServer {
    pub host: String,
    pub port: u16,
    /// Read from the `cache_ttl` setting.
    pub cache_ttl_seconds: u64,
    pub allowed_origins: Vec<String>,
}

/// Log destination and level.
#[derive(Debug, Clone)]
pub struct Logging {
    pub level: String,
    pub file: String,
    pub directory: String,
}

/// Where static assets are served from.
#[derive(Debug, Clone)]
pub struct Assets {
    pub cdn_base_url: String,
}

/// The whole configuration.
#[derive(Debug, Clone)]
pub struct ConfigStruct {
    pub http_server: HttpServer,
    pub logging: Logging,
    pub assets: Assets,
}

/// The settings as read from the settings file, each present or absent.
#[derive(Debug, Clone)]
pub struct ConfigSource {
    pub http_server_host: Option<String>,
    pub http_server_port: Option<u16>,
    pub http_server_cache_ttl: Option<u64>,
    pub http_server_allowed_origins: Option<Vec<String>>,
    pub logging_level: Option<String>,
    pub logging_file: Option<String>,
    pub logging_directory: Option<String>,
    pub assets_cdn_base_url: Option<String>,
}

/// Why the configuration could not be loaded.
#[derive(Debug)]
pub enum ConfigError {
    /// A required setting is absent; it is named by its dotted path.
    MissingSetting(&'static str),
}

/// The first required setting that is absent, in the order the schema
/// declares them.
pub open spec fn first_missing(s: ConfigSource) -> Option<Seq<char>> {
    if s.http_server_host is None {
        Some("http_server.host"@)
    } else if s.http_server_port is None {
        Some("http_server.port"@)
    } else if s.http_server_cache_ttl is None {
        Some("http_server.cache_ttl"@)
    } else if s.logging_level is None {
        Some("logging.level"@)
    } else if s.logging_file is None {
        Some("logging.file"@)
    } else if s.logging_directory is None {
        Some("logging.directory"@)
    } else if s.assets_cdn_base_url is None {
        Some("assets.cdn_base_url"@)
    } else {
        None
    }
}

/// `c` holds exactly the settings of `s`, with no allowed origins when that
/// setting is absent.
pub open spec fn loaded_from(c: ConfigStruct, s: ConfigSource) -> bool {
    &&& s.http_server_host == Some(c.http_server.host)
    &&& s.http_server_port == Some(c.http_server.port)
    &&& s.http_server_cache_ttl == Some(c.http_server.cache_ttl_seconds)
    &&& match s.http_server_allowed_origins {
        Some(origins) => c.http_server.allowed_origins@ == origins@,
        None => c.http_server.allowed_origins@.len() == 0,
    }
    &&& s.logging_level == Some(c.logging.level)
    &&& s.logging_file == Some(c.logging.file)
    &&& s.logging_directory == Some(c.logging.directory)
    &&& s.assets_cdn_base_url == Some(c.assets.cdn_base_url)
}

fn missing(key: &'static str) -> (r: Result<ConfigStruct, ConfigError>)
    ensures
        r matches Err(ConfigError::MissingSetting(k)) && k@ == key@,
{
    Err(ConfigError::MissingSetting(key))
}

impl ConfigStruct {
    /// Builds the configuration from the settings read: every setting but
    /// the allowed origins is required, and those default to none.
    pub fn load(source: ConfigSource) -> (r: Result<ConfigStruct, ConfigError>)
        ensures
            match first_missing(source) {
                Some(key) => r matches Err(ConfigError::MissingSetting(k)) && k@ == key,
                None => r matches Ok(c) && loaded_from(c, source),
            },
    {
        let ConfigSource {
            http_server_host,
            http_server_port,
            http_server_cache_ttl,
            http_server_allowed_origins,
            logging_level,
            logging_file,
            logging_directory,
            assets_cdn_base_url,
        } = source;
        let host = match http_server_host {
            Some(v) => v,
            None => { return missing("http_server.host"); },
        };
        let port = match http_server_port {
            Some(v) => v,
            None => { return missing("http_server.port"); },
        };
        let cache_ttl_seconds = match http_server_cache_ttl {
            Some(v) => v,
            None => { return missing("http_server.cache_ttl"); },
        };
        let level = match logging_level {
            Some(v) => v,
            None => { return missing("logging.level"); },
        };
        let file = match logging_file {
            Some(v) => v,
            None => { return missing("logging.file"); },
        };
        let directory = match logging_directory {
            Some(v) => v,
            None => { return missing("logging.directory"); },
        };
        let cdn_base_url = match assets_cdn_base_url {
            Some(v) => v,
            None => { return missing("assets.cdn_base_url"); },
        };
        let allowed_origins = match http_server_allowed_origins {
            Some(v) => v,
            None => Vec::new(),
        };
        Ok(ConfigStruct {
            http_server: HttpServer { host, port, cache_ttl_seconds, allowed_origins },
            logging: Logging { level, file, directory },
            assets: Assets { cdn_base_url },
        })
    }
}

/// The deployment secret: the name of the profile table.
#[derive(Debug, Clone)]
pub struct AwsSecrets {
    /// Read from the `DYNAMODB_TABLE` entry.
    pub ddb_table: String,
}

/// Why the deployment secret could not be loaded.
#[derive(Debug)]
pub enum SecretsError {
    /// The secrets service did not answer; its error, rendered.
    Fetch(String),
    /// The secret has no text payload.
    EmptyPayload,
    /// The payload is not the expected JSON.
    InvalidJson(serde_json::Error),
}

impl AwsSecrets {
    /// The secret's text payload, which must be present.
    pub fn secret_payload(secret_string: Option<String>) -> (r: Result<String, SecretsError>)
        ensures
            match secret_string {
                Some(p) => r == Ok::<String, SecretsError>(p),
                None => r matches Err(SecretsError::EmptyPayload),
            },
    {
        match secret_string {
            Some(p) => Ok(p),
            None => Err(SecretsError::EmptyPayload),
        }
    }
}

} // verus!
