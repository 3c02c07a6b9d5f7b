//! Application configuration: where the database is.
use vstd::prelude::*;

verus! {

/// Connection settings of the PostgreSQL database.
pub struct DataSourceConfig {
    pub user: String,
    pub password: String,
    pub host: String,
    pub port: u16,
    pub database: String,
    pub schema: String,
}

/// The application configuration.
pub struct AppConfig {
    datasource: DataSourceConfig,
}

impl AppConfig {
    /// The data source of this configuration.
    pub closed spec fn source(&self) -> DataSourceConfig {
        self.datasource
    }

    /// A configuration with the given data source.
    pub fn new(datasource: DataSourceConfig) -> (r: Self)
        ensures
            r.source() == datasource,
    {
        AppConfig { datasource }
    }

    /// The data source of this configuration.
    pub fn datasource(&self) -> (r: &DataSourceConfig)
        ensures
            *r == self.source(),
    {
        &self.datasource
    }
}

} // verus!
