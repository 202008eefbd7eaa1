use postg::config::{Config, Engine};

fn defaults() -> Config {
    Config::default_with(Some("/home/tester".to_string()), "/tmp".to_string(), 4242)
}

#[test]
fn default_config_uses_vanilla_engine() {
    let config = defaults();
    assert_eq!(config.engine, Engine::Vanilla);
    assert_eq!(config.host, "127.0.0.1");
    assert!(config.temporary);
}

#[test]
fn connection_string_format() {
    let config = Config {
        port: 5432,
        ..defaults()
    };
    assert_eq!(
        config.connection_string(),
        "postgresql://postgres@127.0.0.1:5432/postgres"
    );
}

#[test]
fn default_paths_come_from_home_temp_dir_and_pid() {
    let config = defaults();
    assert_eq!(config.data_dir, "/tmp/postg-4242");
    assert_eq!(config.cache_dir, "/home/tester/.cache/postg");
    assert_eq!(config.port, 0);
    assert_eq!(config.username, "postgres");
    assert_eq!(config.database, "postgres");
    let homeless = Config::default_with(None, "/var/tmp/".to_string(), 7);
    assert_eq!(homeless.data_dir, "/var/tmp/postg-7");
    assert_eq!(homeless.cache_dir, "/var/tmp/.cache/postg");
}

#[test]
fn install_dir_and_binaries_per_engine() {
    let mut config = defaults();
    assert_eq!(config.install_dir(), "/home/tester/.cache/postg/vanilla");
    assert_eq!(config.pg_bin("initdb"), "/home/tester/.cache/postg/vanilla/bin/initdb");
    config.engine = Engine::Spock;
    assert_eq!(config.install_dir(), "/home/tester/.cache/postg/spock");
    config.engine = Engine::PostgresqlWithoutLlvm;
    assert_eq!(config.install_dir(), "/home/tester/.cache/postg/postgresql-without-llvm");
    config.engine = Engine::PostgresqlPgvector;
    assert_eq!(config.pg_bin("psql"), "/home/tester/.cache/postg/postgresql-pgvector/bin/psql");
    assert_eq!(Engine::PostgresqlPgvector.to_string(), "postgresql-pgvector");
}

#[test]
fn connection_string_with_large_and_small_ports() {
    let config = Config {
        port: 65535,
        host: "::1".to_string(),
        username: "alice".to_string(),
        database: "app".to_string(),
        ..defaults()
    };
    assert_eq!(config.connection_string(), "postgresql://alice@::1:65535/app");
    let zero = defaults();
    assert_eq!(zero.connection_string(), "postgresql://postgres@127.0.0.1:0/postgres");
}

#[test]
fn absolute_binary_names_replace_the_install_dir() {
    let config = defaults();
    assert_eq!(config.pg_bin("/usr/bin/initdb"), "/usr/bin/initdb");
}

#[test]
fn engines_print_and_publish_under_their_names() {
    assert_eq!(Engine::Vanilla.to_string(), "vanilla");
    assert_eq!(Engine::Spock.to_string(), "spock");
    assert_eq!(Engine::Vanilla.release_name(), "postgresql");
    assert_eq!(Engine::Spock.release_name(), "postgresql-spock");
    assert_eq!(Engine::PostgresqlWithoutLlvm.release_name(), "postgresql-without-llvm");
}
