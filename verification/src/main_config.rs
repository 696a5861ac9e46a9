use vstd::prelude::*;

verus! {

/// Process-wide configuration, assembled once at startup and read-only
/// afterwards: the address the server binds and the root directory of the
/// rule store.
#[derive(Clone, Debug)]
pub struct MainConfig {
    pub server_addr: String,
    pub rules_folder: String,
}

/// Why the startup configuration could not be assembled: a required setting
/// was absent from the environment.
#[derive(Clone, Copy, Debug, PartialEq, Eq, Structural)]
pub enum ConfigError {
    MissingServerAddr,
    MissingRulesFolder,
}

impl MainConfig {
    /// Builds the configuration from the two required settings. Both must be
    /// present; a missing one is reported, the bind address first, and the
    /// process must then refuse to start.
    pub fn from_parts(server_addr: Option<String>, rules_folder: Option<String>) -> (r: Result<
        MainConfig,
        ConfigError,
    >)
        ensures
            r is Ok <==> (server_addr is Some && rules_folder is Some),
            r is Ok ==> r->Ok_0.server_addr == server_addr->Some_0
                && r->Ok_0.rules_folder == rules_folder->Some_0,
            server_addr is None ==> r == Result::<MainConfig, ConfigError>::Err(
                ConfigError::MissingServerAddr,
            ),
            server_addr is Some && rules_folder is None ==> r == Result::<
                MainConfig,
                ConfigError,
            >::Err(ConfigError::MissingRulesFolder),
    {
        match server_addr {
            None => Err(ConfigError::MissingServerAddr),
            Some(addr) => match rules_folder {
                None => Err(ConfigError::MissingRulesFolder),
                Some(folder) => Ok(MainConfig { server_addr: addr, rules_folder: folder }),
            },
        }
    }
}

} // verus!
