//! How a client is set up: where the service is, which database is meant,
//! and how many sessions are kept.

use crate::error::{Error, ErrorModel};
use crate::resource::{DatabaseId, InstanceId, ProjectId};
use crate::text::{format_u64, joined, nat_text};
use vstd::prelude::*;
use vstd::string::*;

verus! {

/// How many sessions the pool keeps.
#[derive(Debug, Clone, Copy, PartialEq, Eq)]
pub struct SessionPoolConfig {
    /// The largest number of sessions that the pool holds; the pool's own
    /// limit where none is given.
    pub max_size: Option<u32>,
    /// The number of idle sessions that the pool tries to keep ready.
    pub min_idle: Option<u32>,
}

/// The settings that the session pool is built with.
#[derive(Debug, Clone, Copy, PartialEq, Eq)]
pub struct PoolSettings {
    /// Whether a session is tested before it is handed out. It never is: a
    /// session is taken to be valid for as long as the pool holds it.
    pub test_on_check_out: bool,
    /// The largest number of sessions, where the pool's own limit is not to
    /// be used.
    pub max_size: Option<u32>,
    /// The number of idle sessions to keep ready.
    pub min_idle: Option<u32>,
}

impl Default for SessionPoolConfig {
    fn default() -> (r: Self)
        ensures
            r.max_size is None,
            r.min_idle is None,
    {
        SessionPoolConfig { max_size: None, min_idle: None }
    }
}

impl SessionPoolConfig {
    /// A builder in which nothing is set.
    pub fn builder() -> (r: SessionPoolConfigBuilder)
        ensures
            r.max_size is None,
            r.min_idle is None,
    {
        SessionPoolConfigBuilder { max_size: None, min_idle: None }
    }

    /// The settings that the session pool is built with.
    pub fn build(self) -> (r: PoolSettings)
        ensures
            r == (PoolSettings {
                test_on_check_out: false,
                max_size: self.max_size,
                min_idle: self.min_idle,
            }),
    {
        PoolSettings { test_on_check_out: false, max_size: self.max_size, min_idle: self.min_idle }
    }
}

/// Collects the settings of a [`SessionPoolConfig`].
#[derive(Debug, Clone, Copy, PartialEq, Eq)]
pub struct SessionPoolConfigBuilder {
    pub max_size: Option<Option<u32>>,
    pub min_idle: Option<Option<u32>>,
}

impl SessionPoolConfigBuilder {
    /// Sets the largest number of sessions that the pool holds.
    pub fn max_size(self, value: u32) -> (r: Self)
        ensures
            r.max_size == Some(Some(value)),
            r.min_idle == self.min_idle,
    {
        SessionPoolConfigBuilder { max_size: Some(Some(value)), min_idle: self.min_idle }
    }

    /// Sets the number of idle sessions that the pool tries to keep ready.
    pub fn min_idle(self, value: u32) -> (r: Self)
        ensures
            r.min_idle == Some(Some(value)),
            r.max_size == self.max_size,
    {
        SessionPoolConfigBuilder { max_size: self.max_size, min_idle: Some(Some(value)) }
    }

    /// The configuration with what was set; what was not set is left to the
    /// pool. This never fails.
    pub fn build(self) -> (r: Result<SessionPoolConfig, Error>)
        ensures
            r == Ok::<SessionPoolConfig, Error>(
                SessionPoolConfig {
                    max_size: match self.max_size {
                        Some(v) => v,
                        None => None,
                    },
                    min_idle: match self.min_idle {
                        Some(v) => v,
                        None => None,
                    },
                },
            ),
    {
        Ok(
            SessionPoolConfig {
                max_size: match self.max_size {
                    Some(v) => v,
                    None => None,
                },
                min_idle: match self.min_idle {
                    Some(v) => v,
                    None => None,
                },
            },
        )
    }
}

/// Settings of the encrypted channel to the service.
#[derive(Debug, PartialEq, Eq)]
pub struct TlsConfig {
    /// The name that the certificate of the service is checked against,
    /// where it is not the host of the endpoint.
    pub domain_name: Option<String>,
    /// A certificate authority to trust, in PEM form, besides the usual
    /// ones.
    pub ca_certificate: Option<Vec<u8>>,
}

impl Default for TlsConfig {
    fn default() -> (r: Self)
        ensures
            r.domain_name is None,
            r.ca_certificate is None,
    {
        TlsConfig { domain_name: None, ca_certificate: None }
    }
}

/// The settings of a client.
#[derive(Debug)]
pub struct Config {
    /// Where the service is reached; the public endpoint of the service
    /// where none is given.
    pub endpoint: Option<String>,
    /// The settings of the encrypted channel; `None` for a channel that is
    /// not encrypted, over which no credentials are sent.
    pub tls_config: Option<TlsConfig>,
    /// The project of the database; taken from the credentials where none
    /// is given.
    pub project: Option<String>,
    pub instance: String,
    pub database: String,
    /// The file to read the credentials from; where none is given they are
    /// looked for in the environment.
    pub credentials_file: Option<String>,
    pub session_pool_config: Option<SessionPoolConfig>,
}

/// Collects the settings of a [`Config`].
#[derive(Debug)]
pub struct ConfigBuilder {
    pub endpoint: Option<Option<String>>,
    pub tls_config: Option<Option<TlsConfig>>,
    pub project: Option<Option<String>>,
    pub instance: Option<String>,
    pub database: Option<String>,
    pub credentials_file: Option<Option<String>>,
    pub session_pool_config: Option<Option<SessionPoolConfig>>,
}

/// The text of an optional string.
pub open spec fn text_of(s: Option<String>) -> Option<Seq<char>> {
    match s {
        Some(s) => Some(s@),
        None => None,
    }
}

/// The text of a string that may be unset, or set to be absent.
pub open spec fn text_of_setting(s: Option<Option<String>>) -> Option<Option<Seq<char>>> {
    match s {
        Some(s) => Some(text_of(s)),
        None => None,
    }
}

/// The address of an emulator of the service that listens on the given
/// port of this machine.
pub open spec fn emulator_address(port: u16) -> Seq<char> {
    "http://localhost:"@ + nat_text(port as nat)
}

/// Where the project of the database is taken from.
#[derive(Debug, PartialEq, Eq)]
pub enum ProjectSource {
    /// The configuration names the project.
    Given(String),
    /// The credentials say which project they belong to.
    Credentials,
}

/// Where the credentials are taken from.
#[derive(Debug, PartialEq, Eq)]
pub enum CredentialsSource {
    /// The channel is not encrypted: no credentials are used.
    Unused,
    /// The given file.
    File(String),
    /// What the environment provides.
    Environment,
}

impl Default for ConfigBuilder {
    fn default() -> (r: Self)
        ensures
            r.endpoint is None,
            r.tls_config is None,
            r.project is None,
            r.instance is None,
            r.database is None,
            r.credentials_file is None,
            r.session_pool_config is None,
    {
        ConfigBuilder {
            endpoint: None,
            tls_config: None,
            project: None,
            instance: None,
            database: None,
            credentials_file: None,
            session_pool_config: None,
        }
    }
}

impl ConfigBuilder {
    /// Sets the address at which the service is reached.
    pub fn endpoint(self, value: &str) -> (r: Self)
        ensures
            text_of_setting(r.endpoint) == Some(Some(value@)),
            r.tls_config == self.tls_config,
            r.project == self.project,
            r.instance == self.instance,
            r.database == self.database,
            r.credentials_file == self.credentials_file,
            r.session_pool_config == self.session_pool_config,
    {
        let mut new = self;
        new.endpoint = Some(Some(String::from_str(value)));
        new
    }

    /// Sets the settings of the encrypted channel.
    pub fn tls_config(self, value: TlsConfig) -> (r: Self)
        ensures
            r.tls_config == Some(Some(value)),
            r.endpoint == self.endpoint,
            r.project == self.project,
            r.instance == self.instance,
            r.database == self.database,
            r.credentials_file == self.credentials_file,
            r.session_pool_config == self.session_pool_config,
    {
        let mut new = self;
        new.tls_config = Some(Some(value));
        new
    }

    /// Sets the project of the database.
    pub fn project(self, value: &str) -> (r: Self)
        ensures
            text_of_setting(r.project) == Some(Some(value@)),
            r.endpoint == self.endpoint,
            r.tls_config == self.tls_config,
            r.instance == self.instance,
            r.database == self.database,
            r.credentials_file == self.credentials_file,
            r.session_pool_config == self.session_pool_config,
    {
        let mut new = self;
        new.project = Some(Some(String::from_str(value)));
        new
    }

    /// Sets the instance of the database.
    pub fn instance(self, value: &str) -> (r: Self)
        ensures
            text_of(r.instance) == Some(value@),
            r.endpoint == self.endpoint,
            r.tls_config == self.tls_config,
            r.project == self.project,
            r.database == self.database,
            r.credentials_file == self.credentials_file,
            r.session_pool_config == self.session_pool_config,
    {
        let mut new = self;
        new.instance = Some(String::from_str(value));
        new
    }

    /// Sets the name of the database.
    pub fn database(self, value: &str) -> (r: Self)
        ensures
            text_of(r.database) == Some(value@),
            r.endpoint == self.endpoint,
            r.tls_config == self.tls_config,
            r.project == self.project,
            r.instance == self.instance,
            r.credentials_file == self.credentials_file,
            r.session_pool_config == self.session_pool_config,
    {
        let mut new = self;
        new.database = Some(String::from_str(value));
        new
    }

    /// Sets the file to read the credentials from.
    pub fn credentials_file(self, value: &str) -> (r: Self)
        ensures
            text_of_setting(r.credentials_file) == Some(Some(value@)),
            r.endpoint == self.endpoint,
            r.tls_config == self.tls_config,
            r.project == self.project,
            r.instance == self.instance,
            r.database == self.database,
            r.session_pool_config == self.session_pool_config,
    {
        let mut new = self;
        new.credentials_file = Some(Some(String::from_str(value)));
        new
    }

    /// Sets how many sessions the pool keeps.
    pub fn session_pool_config(self, value: SessionPoolConfig) -> (r: Self)
        ensures
            r.session_pool_config == Some(Some(value)),
            r.endpoint == self.endpoint,
            r.tls_config == self.tls_config,
            r.project == self.project,
            r.instance == self.instance,
            r.database == self.database,
            r.credentials_file == self.credentials_file,
    {
        let mut new = self;
        new.session_pool_config = Some(Some(value));
        new
    }

    /// Turns encryption off, and with it authentication, so that no secret
    /// is sent in the clear. This is meant for an emulator of the service.
    pub fn disable_tls(self) -> (r: Self)
        ensures
            r.tls_config == Some(None::<TlsConfig>),
            r.endpoint == self.endpoint,
            r.project == self.project,
            r.instance == self.instance,
            r.database == self.database,
            r.credentials_file == self.credentials_file,
            r.session_pool_config == self.session_pool_config,
    {
        let mut new = self;
        new.tls_config = Some(None);
        new
    }

    /// Points the client at an emulator of the service at the given
    /// address, such as `http://localhost:9092`, without encryption.
    pub fn with_emulator_host(self, endpoint: String) -> (r: Self)
        ensures
            r.endpoint == Some(Some(endpoint)),
            r.tls_config == Some(None::<TlsConfig>),
            r.project == self.project,
            r.instance == self.instance,
            r.database == self.database,
            r.credentials_file == self.credentials_file,
            r.session_pool_config == self.session_pool_config,
    {
        let mut new = self;
        new.endpoint = Some(Some(endpoint));
        new.disable_tls()
    }

    /// Points the client at an emulator of the service that listens on the
    /// given port of this machine, without encryption.
    pub fn with_emulator_grpc_port(self, port: u16) -> (r: Self)
        ensures
            text_of_setting(r.endpoint) == Some(Some(emulator_address(port))),
            r.tls_config == Some(None::<TlsConfig>),
            r.project == self.project,
            r.instance == self.instance,
            r.database == self.database,
            r.credentials_file == self.credentials_file,
            r.session_pool_config == self.session_pool_config,
    {
        let address = joined("http://localhost:", format_u64(port as u64).as_str());
        self.with_emulator_host(address)
    }

    /// The configuration with what was set. The instance and the database
    /// must have been set; the channel is encrypted with the usual settings
    /// unless something else was asked for.
    pub fn build(self) -> (r: Result<Config, Error>)
        ensures
            match r {
                Ok(config) => {
                    &&& self.instance == Some(config.instance)
                    &&& self.database == Some(config.database)
                    &&& config.endpoint == match self.endpoint {
                        Some(v) => v,
                        None => None,
                    }
                    &&& match self.tls_config {
                        Some(v) => config.tls_config == v,
                        None => config.tls_config matches Some(tls) && tls.domain_name is None
                            && tls.ca_certificate is None,
                    }
                    &&& config.project == match self.project {
                        Some(v) => v,
                        None => None,
                    }
                    &&& config.credentials_file == match self.credentials_file {
                        Some(v) => v,
                        None => None,
                    }
                    &&& config.session_pool_config == match self.session_pool_config {
                        Some(v) => v,
                        None => None,
                    }
                },
                Err(e) => if self.instance is None {
                    e@ == ErrorModel::Config("Field not initialized: instance"@)
                } else {
                    self.database is None && e@ == ErrorModel::Config(
                        "Field not initialized: database"@,
                    )
                },
            },
    {
        let instance = match self.instance {
            Some(v) => v,
            None => {
                return Err(Error::Config(String::from_str("Field not initialized: instance")));
            },
        };
        let database = match self.database {
            Some(v) => v,
            None => {
                return Err(Error::Config(String::from_str("Field not initialized: database")));
            },
        };
        Ok(
            Config {
                endpoint: match self.endpoint {
                    Some(v) => v,
                    None => None,
                },
                tls_config: match self.tls_config {
                    Some(v) => v,
                    None => Some(TlsConfig::default()),
                },
                project: match self.project {
                    Some(v) => v,
                    None => None,
                },
                instance,
                database,
                credentials_file: match self.credentials_file {
                    Some(v) => v,
                    None => None,
                },
                session_pool_config: match self.session_pool_config {
                    Some(v) => v,
                    None => None,
                },
            },
        )
    }
}

impl Config {
    /// A builder in which nothing is set.
    pub fn builder() -> (r: ConfigBuilder)
        ensures
            r.endpoint is None,
            r.tls_config is None,
            r.project is None,
            r.instance is None,
            r.database is None,
            r.credentials_file is None,
            r.session_pool_config is None,
    {
        ConfigBuilder::default()
    }

    /// Where the credentials are taken from: nowhere if the channel is not
    /// encrypted, else from the file that is configured, else from the
    /// environment.
    pub fn credentials_source(&self) -> (r: CredentialsSource)
        ensures
            self.tls_config is None ==> r is Unused,
            self.tls_config is Some ==> match self.credentials_file {
                Some(file) => r matches CredentialsSource::File(f) && f@ == file@,
                None => r is Environment,
            },
    {
        if self.tls_config.is_none() {
            CredentialsSource::Unused
        } else {
            match &self.credentials_file {
                Some(file) => CredentialsSource::File(file.clone()),
                None => CredentialsSource::Environment,
            }
        }
    }

    /// Where the project is taken from: from the configuration if it names
    /// one, else from the credentials. Without either the configuration is
    /// refused.
    pub fn project_source(&self) -> (r: Result<ProjectSource, Error>)
        ensures
            match self.project {
                Some(project) => r matches Ok(ProjectSource::Given(p)) && p@ == project@,
                None => if self.tls_config is Some {
                    r matches Ok(ProjectSource::Credentials)
                } else {
                    r matches Err(e) && e@ == ErrorModel::Config("missing project id"@)
                },
            },
    {
        match &self.project {
            Some(project) => Ok(ProjectSource::Given(project.clone())),
            None => if self.tls_config.is_some() {
                Ok(ProjectSource::Credentials)
            } else {
                Err(Error::Config(String::from_str("missing project id")))
            },
        }
    }

    /// The database that the configuration means, in the given project.
    pub fn database_id(&self, project_id: &str) -> (r: DatabaseId)
        ensures
            r.0.0.0@ == project_id@,
            r.0.1@ == self.instance@,
            r.1@ == self.database@,
    {
        DatabaseId::new(
            InstanceId::new(ProjectId::new(project_id), self.instance.as_str()),
            self.database.as_str(),
        )
    }

    /// The address to connect to, and whether the channel is encrypted. The
    /// public endpoint of the service is only used with encryption.
    pub fn channel_address(&self) -> (r: Result<String, Error>)
        ensures
            match self.endpoint {
                Some(endpoint) => r matches Ok(address) && address@ == endpoint@,
                None => if self.tls_config is Some {
                    r matches Ok(address) && address@ == "https://spanner.googleapis.com"@
                } else {
                    r matches Err(e) && e@ == ErrorModel::Config("TLS is required"@)
                },
            },
    {
        match &self.endpoint {
            Some(endpoint) => Ok(endpoint.clone()),
            None => if self.tls_config.is_some() {
                Ok(String::from_str("https://spanner.googleapis.com"))
            } else {
                Err(Error::Config(String::from_str("TLS is required")))
            },
        }
    }
}

} // verus!
