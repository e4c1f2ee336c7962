//! Service configuration: its shape, and which source it is read from.

use vstd::prelude::*;

verus! {

/// The configuration of a service.
#[derive(Clone, Debug)]
pub struct AppConfig {
    pub server: ServerConfig,
    pub auth: AuthConfig,
}

/// Where the service listens and which database it reads.
#[derive(Clone, Debug)]
pub struct ServerConfig {
    pub db_url: String,
    pub port: u16,
}

/// The public key that tokens are checked against.
#[derive(Clone, Debug)]
pub struct AuthConfig {
    pub pk: String,
}

/// The file in the working directory that holds the configuration.
pub const LOCAL_CONFIG_PATH: &'static str = "user_stat_svc.yml";

/// The system-wide file that holds the configuration.
pub const SYSTEM_CONFIG_PATH: &'static str = "/etc/user_stat_svc.yml";

/// The environment variable that may name a configuration file.
pub const CONFIG_PATH_VAR: &'static str = "USER_STAT_SVC_CONFIG";

/// Where the configuration is read from.
#[derive(Clone, Debug, PartialEq, Eq)]
pub enum ConfigSource {
    /// `LOCAL_CONFIG_PATH`, in the working directory.
    Local,
    /// `SYSTEM_CONFIG_PATH`.
    System,
    /// The file that `CONFIG_PATH_VAR` names.
    EnvPath(String),
}

/// No configuration source is available.
#[derive(Clone, Copy, Debug, PartialEq, Eq)]
pub enum ConfigError {
    NotFound,
}

impl ConfigError {
    /// The message the error is reported with: empty.
    pub fn message(&self) -> (msg: String)
        ensures
            msg@ == Seq::<char>::empty(),
    {
        String::new()
    }
}

/// The source that the configuration is read from: the local file if it
/// could be opened, else the system file if it could be opened, else the
/// file named by the environment variable if it is set; otherwise none.
pub fn pick_config_source(local_opened: bool, system_opened: bool, env_path: Option<String>) -> (res:
    Result<ConfigSource, ConfigError>)
    ensures
        local_opened ==> res == Ok::<ConfigSource, ConfigError>(ConfigSource::Local),
        !local_opened && system_opened ==> res == Ok::<ConfigSource, ConfigError>(
            ConfigSource::System,
        ),
        !local_opened && !system_opened ==> match env_path {
            Some(path) => res matches Ok(ConfigSource::EnvPath(p)) && p@ == path@,
            None => res == Err::<ConfigSource, ConfigError>(ConfigError::NotFound),
        },
{
    if local_opened {
        Ok(ConfigSource::Local)
    } else if system_opened {
        Ok(ConfigSource::System)
    } else {
        match env_path {
            Some(path) => Ok(ConfigSource::EnvPath(path)),
            None => Err(ConfigError::NotFound),
        }
    }
}

} // verus!
