//! Paths of the per-user configuration: the application's data directory
//! under the platform's configuration directory, and the configuration file
//! inside it.

use vstd::prelude::*;
use vstd::string::StringExecFns;

verus! {

/// Error of the configuration-path functions.
#[derive(Clone, Copy, PartialEq, Eq, Structural, Debug)]
pub enum ConfigError {
    /// The platform reports no configuration directory.
    NoBaseDirectory,
}

/// Relies on `dirs::config_dir`: the platform's configuration directory, if
/// the platform reports one. The result depends on the environment, so
/// nothing is assumed of it.
#[verifier::external_body]
fn config_base_dir() -> Option<String> {
    dirs::config_dir().map(|p| p.to_string_lossy().into_owned())
}

/// The application's data directory under a base directory.
pub fn data_dir_from_base(base: &str) -> (r: String)
    ensures
        r@ == base@ + "/agentx"@,
{
    String::from_str(base).concat("/agentx")
}

/// The configuration file path inside a data directory.
pub fn config_path_in_dir(dir: &str) -> (r: String)
    ensures
        r@ == dir@ + "/config.json"@,
{
    String::from_str(dir).concat("/config.json")
}

/// The per-user data directory: the platform's configuration directory with
/// the application's segment appended. Fails exactly when the platform
/// reports no configuration directory.
pub fn get_user_data_dir() -> (r: Result<String, ConfigError>)
    ensures
        r matches Ok(p) ==> exists|base: Seq<char>| p@ == base + "/agentx"@,
        r matches Err(e) ==> e == ConfigError::NoBaseDirectory,
{
    match config_base_dir() {
        Some(base) => {
            let dir = data_dir_from_base(base.as_str());
            proof {
                assert(dir@ == base@ + "/agentx"@);
            }
            Ok(dir)
        },
        None => Err(ConfigError::NoBaseDirectory),
    }
}

/// The per-user configuration file path: `config.json` inside the data
/// directory. Fails exactly when the platform reports no configuration
/// directory.
pub fn get_user_config_path() -> (r: Result<String, ConfigError>)
    ensures
        r matches Ok(p) ==> exists|base: Seq<char>| p@ == base + "/agentx/config.json"@,
        r matches Err(e) ==> e == ConfigError::NoBaseDirectory,
{
    match get_user_data_dir() {
        Ok(dir) => {
            let path = config_path_in_dir(dir.as_str());
            proof {
                let base = choose|base: Seq<char>| dir@ == base + "/agentx"@;
                reveal_strlit("/agentx");
                reveal_strlit("/config.json");
                reveal_strlit("/agentx/config.json");
                assert(("/agentx"@ + "/config.json"@) =~= "/agentx/config.json"@);
                assert(path@ =~= base + "/agentx/config.json"@);
            }
            Ok(path)
        },
        Err(e) => Err(e),
    }
}

} // verus!
