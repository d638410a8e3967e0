use vstd::prelude::*;

use crate::plugin::RuntimeConfig;

verus! {

/// Connection settings of the persistence layer; every field is optional
/// and defaults to "unset".
#[derive(Debug, Clone, PartialEq, Eq)]
pub struct DatabaseConfig {
    pub uri: Option<String>,
    pub max_connections: Option<u32>,
}

impl Default for DatabaseConfig {
    fn default() -> (r: Self)
        ensures
            r.uri is None,
            r.max_connections is None,
    {
        DatabaseConfig { uri: None, max_connections: None }
    }
}

/// Top-level configuration of the host application: the run-time
/// configuration forwarded to plugins, and the database settings.
#[derive(Debug, Clone, PartialEq, Eq)]
pub struct AnythingConfig {
    pub runtime_config: RuntimeConfig,
    pub database: DatabaseConfig,
}

impl AnythingConfig {
    /// A configuration with the given run-time part and default database
    /// settings.
    pub fn new(runtime_config: RuntimeConfig) -> (r: Self)
        ensures
            r.runtime_config == runtime_config,
            r.database.uri is None,
            r.database.max_connections is None,
    {
        AnythingConfig { runtime_config, database: DatabaseConfig::default() }
    }

    /// The run-time configuration part.
    pub fn runtime_config(&self) -> (r: &RuntimeConfig)
        ensures
            *r == self.runtime_config,
    {
        &self.runtime_config
    }

    /// Replaces the run-time configuration, leaving the database settings
    /// untouched.
    pub fn update_runtime_config(&mut self, new_config: RuntimeConfig)
        ensures
            final(self).runtime_config == new_config,
            final(self).database == old(self).database,
    {
        self.runtime_config = new_config;
    }

    /// The database settings part.
    pub fn database_config(&self) -> (r: &DatabaseConfig)
        ensures
            *r == self.database,
    {
        &self.database
    }
}

} // verus!
