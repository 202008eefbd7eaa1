use postg::config::{Config, Engine};
use postg::pgconf::{
    managed_settings, rewrite_managed_section, MANAGED_CONF_BEGIN, MANAGED_CONF_END,
};

fn config(port: u16, engine: Engine) -> Config {
    Config {
        port,
        engine,
        ..Config::default_with(None, "/tmp".to_string(), 1)
    }
}

#[test]
fn managed_settings_of_standard_engine() {
    assert_eq!(
        managed_settings(&config(5432, Engine::Vanilla)),
        "port = 5432\nlisten_addresses = '127.0.0.1'\nunix_socket_directories = ''\nwal_level = logical\nmax_replication_slots = 4\nmax_wal_senders = 4\n"
    );
}

#[test]
fn managed_settings_of_spock_engine() {
    let s = managed_settings(&config(6000, Engine::Spock));
    assert!(s.starts_with("port = 6000\nlisten_addresses = '127.0.0.1'\n"));
    assert!(s.contains("shared_preload_libraries = 'spock'\n"));
    assert!(s.contains("spock.conflict_resolution = 'last_update_wins'\n"));
    assert!(s.contains("max_replication_slots = 10\n"));
    assert!(s.ends_with("spock.include_ddl_repset = on\n"));
    assert!(!s.contains("max_replication_slots = 4"));
}

#[test]
fn rewrite_appends_section_to_fresh_file() {
    let out = rewrite_managed_section("shared_buffers = 128MB\n", "port = 1\n");
    assert_eq!(
        out,
        format!(
            "shared_buffers = 128MB\n\n{}\nport = 1\n{}\n",
            MANAGED_CONF_BEGIN, MANAGED_CONF_END
        )
    );
}

#[test]
fn rewrite_replaces_previous_section_and_keeps_user_settings() {
    let first = rewrite_managed_section("a = 1\n", "port = 1\n");
    let second = rewrite_managed_section(&first, "port = 2\n");
    assert_eq!(
        second,
        format!("a = 1\n\n{}\nport = 2\n{}\n", MANAGED_CONF_BEGIN, MANAGED_CONF_END)
    );
    assert!(!second.contains("port = 1"));
    let third = rewrite_managed_section(&second, "port = 3\n");
    assert_eq!(
        third,
        format!("a = 1\n\n{}\nport = 3\n{}\n", MANAGED_CONF_BEGIN, MANAGED_CONF_END)
    );
}

#[test]
fn rewrite_keeps_text_after_the_section() {
    let existing = format!(
        "x = 1\n{}\nold\n{}\ny = 2\n",
        MANAGED_CONF_BEGIN, MANAGED_CONF_END
    );
    assert_eq!(
        rewrite_managed_section(&existing, "new\n"),
        format!("x = 1\n{}\nnew\n{}\ny = 2\n", MANAGED_CONF_BEGIN, MANAGED_CONF_END)
    );
}

#[test]
fn rewrite_with_begin_marker_but_no_end_marker_drops_the_rest() {
    let existing = format!("x = 1\n{}\ndangling\n", MANAGED_CONF_BEGIN);
    assert_eq!(
        rewrite_managed_section(&existing, "s\n"),
        format!("x = 1\n{}\ns\n{}\n", MANAGED_CONF_BEGIN, MANAGED_CONF_END)
    );
}

#[test]
fn rewrite_of_empty_file() {
    assert_eq!(
        rewrite_managed_section("", "p\n"),
        format!("\n{}\np\n{}\n", MANAGED_CONF_BEGIN, MANAGED_CONF_END)
    );
}

#[test]
fn rewriting_twice_with_the_same_settings_changes_nothing() {
    let first = rewrite_managed_section("a = 1\n", "port = 1\n");
    let second = rewrite_managed_section(&first, "port = 1\n");
    assert_eq!(first, second);
    let end_without_newline = format!("{}\nold\n{}", MANAGED_CONF_BEGIN, MANAGED_CONF_END);
    let once = rewrite_managed_section(&end_without_newline, "n\n");
    assert_eq!(once, format!("{}\nn\n{}\n", MANAGED_CONF_BEGIN, MANAGED_CONF_END));
    assert_eq!(rewrite_managed_section(&once, "n\n"), once);
}
