//! The application's settings and where they are read from.
use vstd::prelude::*;
use vstd::string::*;

verus! {

/// All settings of the application.
#[derive(Debug)]
pub struct Settings {
    pub server: ServerConfig,
    pub hosts: HostsConfig,
    pub kafka: KafkaConfig,
}

/// The HTTP server's settings.
#[derive(Debug)]
pub struct ServerConfig {
    pub port: u16,
    pub debug: bool,
}

/// The base URLs of the three replicas.
#[derive(Debug)]
pub struct HostsConfig {
    pub primary: String,
    pub secondary: String,
    pub candidate: String,
}

/// The Kafka settings.
#[derive(Debug)]
pub struct KafkaConfig {
    pub bootstrap_servers: String,
    pub group_id: String,
    pub replay_topic: String,
    pub observation_topic: String,
}

/// Where the settings are read from, in order: a default file, a file for the
/// run mode (which may be missing), and environment variables with a prefix.
#[derive(Debug)]
pub struct SettingsSources {
    pub default_file: String,
    pub environment_file: String,
    pub environment_file_required: bool,
    pub environment_prefix: String,
}

/// The run mode: the given one, or `development`.
pub open spec fn run_mode_or_default(run_mode: Option<String>) -> Seq<char> {
    match run_mode {
        Some(m) => m@,
        None => "development"@,
    }
}

/// For any given run mode, the settings for that mode are read from
/// `config/<mode>.yaml`; with no run mode, from `config/development.yaml`.
pub proof fn law_environment_file_follows_run_mode(run_mode: Option<String>, s: SettingsSources)
    requires
        s.environment_file@ == "config/"@ + run_mode_or_default(run_mode) + ".yaml"@,
    ensures
        run_mode matches Some(m) ==> s.environment_file@ == "config/"@ + m@ + ".yaml"@,
        run_mode is None ==> s.environment_file@ == "config/"@ + "development"@ + ".yaml"@,
{
}

impl Settings {
    /// The sources of the settings for a run mode (`development` when none is
    /// given): `config/default.yaml`, then the optional `config/<mode>.yaml`,
    /// then the environment variables prefixed with `APP`.
    pub fn sources(run_mode: Option<String>) -> (s: SettingsSources)
        ensures
            s.default_file@ == "config/default.yaml"@,
            s.environment_file@ == "config/"@ + run_mode_or_default(run_mode) + ".yaml"@,
            run_mode matches Some(m) ==> s.environment_file@ == "config/"@ + m@ + ".yaml"@,
            run_mode is None ==> s.environment_file@ == "config/"@ + "development"@ + ".yaml"@,
            !s.environment_file_required,
            s.environment_prefix@ == "APP"@,
    {
        let mode = match run_mode {
            Some(m) => m,
            None => String::from_str("development"),
        };
        let mut environment_file = String::from_str("config/");
        environment_file.append(mode.as_str());
        environment_file.append(".yaml");
        SettingsSources {
            default_file: String::from_str("config/default.yaml"),
            environment_file,
            environment_file_required: false,
            environment_prefix: String::from_str("APP"),
        }
    }
}

} // verus!
