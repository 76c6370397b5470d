use spanner_rs::{Config, Error, PoolSettings, SessionPoolConfig, SpannerResource, TlsConfig};
use spanner_rs::config::{CredentialsSource, ProjectSource};

#[test]
fn test_config_database() {
    let cfg = Config::builder()
        .project("project")
        .instance("instance")
        .database("database")
        .build()
        .unwrap();

    assert_eq!(cfg.project, Some("project".to_string()));
    assert_eq!(cfg.instance, "instance".to_string());
    assert_eq!(cfg.database, "database".to_string());
}

#[test]
fn test_config_endpoint() {
    let cfg = Config::builder().endpoint("endpoint");
    assert_eq!(cfg.endpoint, Some(Some("endpoint".to_string())))
}

#[test]
fn test_session_pool_config() {
    let built = SessionPoolConfig::builder()
        .max_size(10)
        .min_idle(100)
        .build()
        .unwrap();

    assert_eq!(built.max_size, Some(10));
    assert_eq!(built.min_idle, Some(100));
}

#[test]
fn session_pool_config_defaults_to_nothing_set() {
    let built = SessionPoolConfig::builder().build().unwrap();
    assert_eq!(built, SessionPoolConfig::default());
    assert_eq!(built.max_size, None);
    assert_eq!(built.min_idle, None);
}

#[test]
fn pool_is_built_without_check_on_check_out() {
    let settings = SessionPoolConfig::builder()
        .max_size(7)
        .build()
        .unwrap()
        .build();
    assert_eq!(
        settings,
        PoolSettings {
            test_on_check_out: false,
            max_size: Some(7),
            min_idle: None
        }
    );
}

#[test]
fn build_needs_an_instance() {
    let built = Config::builder().database("database").build();
    assert_eq!(
        built.err(),
        Some(Error::Config("Field not initialized: instance".to_string()))
    );
}

#[test]
fn build_needs_a_database() {
    let built = Config::builder().instance("instance").build();
    assert_eq!(
        built.err(),
        Some(Error::Config("Field not initialized: database".to_string()))
    );
}

#[test]
fn build_encrypts_unless_told_otherwise() {
    let cfg = Config::builder()
        .instance("i")
        .database("d")
        .build()
        .unwrap();
    assert_eq!(cfg.tls_config, Some(TlsConfig::default()));
    assert_eq!(cfg.endpoint, None);
    assert_eq!(cfg.credentials_file, None);
    assert_eq!(cfg.session_pool_config, None);
    assert_eq!(cfg.credentials_source(), CredentialsSource::Environment);
    assert_eq!(cfg.project_source(), Ok(ProjectSource::Credentials));
    assert_eq!(
        cfg.channel_address(),
        Ok("https://spanner.googleapis.com".to_string())
    );
}

#[test]
fn disable_tls_turns_authentication_off() {
    let cfg = Config::builder()
        .instance("i")
        .database("d")
        .credentials_file("key.json")
        .disable_tls()
        .build()
        .unwrap();
    assert_eq!(cfg.tls_config, None);
    assert_eq!(cfg.credentials_source(), CredentialsSource::Unused);
    assert_eq!(
        cfg.project_source(),
        Err(Error::Config("missing project id".to_string()))
    );
    assert_eq!(
        cfg.channel_address(),
        Err(Error::Config("TLS is required".to_string()))
    );
}

#[test]
fn credentials_come_from_the_configured_file() {
    let cfg = Config::builder()
        .instance("i")
        .database("d")
        .credentials_file("key.json")
        .build()
        .unwrap();
    assert_eq!(
        cfg.credentials_source(),
        CredentialsSource::File("key.json".to_string())
    );
}

#[test]
fn emulator_host_disables_tls() {
    let builder = Config::builder().with_emulator_host("http://localhost:9092".to_string());
    assert_eq!(
        builder.endpoint,
        Some(Some("http://localhost:9092".to_string()))
    );
    assert_eq!(builder.tls_config, Some(None));
}

#[test]
fn emulator_port_is_written_into_the_address() {
    let builder = Config::builder().with_emulator_grpc_port(9010);
    assert_eq!(
        builder.endpoint,
        Some(Some("http://localhost:9010".to_string()))
    );
    assert_eq!(builder.tls_config, Some(None));
    let builder = Config::builder().with_emulator_grpc_port(0);
    assert_eq!(builder.endpoint, Some(Some("http://localhost:0".to_string())));
    let builder = Config::builder().with_emulator_grpc_port(65535);
    assert_eq!(
        builder.endpoint,
        Some(Some("http://localhost:65535".to_string()))
    );
}

#[test]
fn database_id_uses_the_given_project() {
    let cfg = Config::builder()
        .project("p")
        .instance("i")
        .database("d")
        .with_emulator_grpc_port(9010)
        .build()
        .unwrap();
    assert_eq!(
        cfg.project_source(),
        Ok(ProjectSource::Given("p".to_string()))
    );
    assert_eq!(
        cfg.database_id("p").id(),
        "projects/p/instances/i/databases/d"
    );
    assert_eq!(cfg.channel_address(), Ok("http://localhost:9010".to_string()));
}
