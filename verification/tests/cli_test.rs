use postg::cli::{
    cli_status_args, cli_stop_args, client_args, plan_dump, plan_restore, Cli, Commands, DumpPlan,
    EngineArg, RestorePlan,
};
use postg::config::{Config, Engine};

#[test]
fn command_line_configuration_overrides_defaults() {
    let defaults = Config::default_with(Some("/home/u".to_string()), "/tmp".to_string(), 3);
    let cli = Cli {
        engine: EngineArg::PostgresqlSpock,
        data_dir: "./pgdata".to_string(),
        port: 0,
        host: "127.0.0.1".to_string(),
        cache_dir: None,
        command: Commands::Start,
    };
    let config = cli.config(defaults.clone());
    assert_eq!(config.engine, Engine::Spock);
    assert_eq!(config.data_dir, "./pgdata");
    assert!(!config.temporary);
    assert_eq!(config.cache_dir, "/home/u/.cache/postg");
    let with_cache = Cli { cache_dir: Some("/cache".to_string()), ..cli };
    assert_eq!(with_cache.config(defaults).cache_dir, "/cache");
}

#[test]
fn dump_plans() {
    assert_eq!(plan_dump("sql", None, None), Ok(DumpPlan::Sql { file: None }));
    assert_eq!(
        plan_dump("sql", None, Some("out.sql".to_string())),
        Ok(DumpPlan::Sql { file: Some("out.sql".to_string()) })
    );
    assert_eq!(
        plan_dump("parquet", Some("SELECT 1".to_string()), Some("o.parquet".to_string())),
        Ok(DumpPlan::Parquet { query: "SELECT 1".to_string(), file: "o.parquet".to_string() })
    );
    assert_eq!(
        plan_dump("parquet", None, None),
        Err("--file is required for parquet format".to_string())
    );
    assert_eq!(
        plan_dump("parquet", None, Some("o.parquet".to_string())),
        Err("--query is required for parquet format".to_string())
    );
    assert_eq!(
        plan_dump("csv", None, None),
        Err("Unsupported format: csv. Supported formats are 'sql' and 'parquet'".to_string())
    );
}

#[test]
fn restore_plans() {
    assert_eq!(
        plan_restore("sql", None, false, "b.sql".to_string()),
        Ok(RestorePlan::Sql { file: "b.sql".to_string() })
    );
    assert_eq!(
        plan_restore("parquet", Some("users".to_string()), true, "u.parquet".to_string()),
        Ok(RestorePlan::Parquet {
            table: "users".to_string(),
            create_table: true,
            file: "u.parquet".to_string()
        })
    );
    assert_eq!(
        plan_restore("parquet", None, true, "u.parquet".to_string()),
        Err("--table is required for parquet format".to_string())
    );
    assert_eq!(
        plan_restore("json", Some("t".to_string()), true, "x".to_string()),
        Ok(RestorePlan::Sql { file: "x".to_string() })
    );
}

#[test]
fn client_program_arguments() {
    assert_eq!(cli_stop_args("/d"), vec!["stop", "-D", "/d", "-m", "fast"]);
    assert_eq!(cli_status_args("/d"), vec!["status", "-D", "/d"]);
    assert_eq!(client_args("postgresql://x", None), vec!["-d", "postgresql://x"]);
    assert_eq!(
        client_args("postgresql://x", Some("f.sql")),
        vec!["-d", "postgresql://x", "-f", "f.sql"]
    );
}
