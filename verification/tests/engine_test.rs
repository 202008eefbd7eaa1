use postg::config::Config;
use postg::effects::{Effect, Outcome};
use postg::engine::{Instance, ShutdownKind, Start, PG_HBA_CONF};
use postg::error::Error;
use postg::pgconf::rewrite_managed_section;

fn config() -> Config {
    Config {
        cache_dir: "/c".to_string(),
        data_dir: "/d".to_string(),
        ..Config::default_with(None, "/tmp".to_string(), 1)
    }
}

fn strings(v: &[&str]) -> Vec<String> {
    v.iter().map(|s| s.to_string()).collect()
}

/// Runs a start past an already extracted payload.
fn started() -> Start {
    let (mut s, first) = Start::new(config(), "x86_64", "linux", None);
    assert_eq!(first, Effect::CheckPath("/c/vanilla/.extracted".to_string()));
    assert_eq!(s.step(&Outcome::Exists(true)), Effect::PickPort("127.0.0.1".to_string()));
    s
}

#[test]
fn start_of_a_fresh_data_directory() {
    let mut s = started();
    assert_eq!(s.step(&Outcome::Port(54321)), Effect::CreateDirAll("/d".to_string()));
    assert_eq!(s.config().port, 54321);
    assert_eq!(s.step(&Outcome::Done), Effect::CheckPath("/d/PG_VERSION".to_string()));
    assert_eq!(
        s.step(&Outcome::Exists(false)),
        Effect::Run(
            "/c/vanilla/bin/initdb".to_string(),
            strings(&["--auth=trust", "--encoding=UTF8", "-U", "postgres", "-D", "/d"]),
            true
        )
    );
    assert_eq!(
        s.step(&Outcome::Finished(true, String::new())),
        Effect::ReadFile("/d/postgresql.conf".to_string())
    );
    let conf = s.step(&Outcome::Content(Some("a = 1\n".to_string())));
    let expected = rewrite_managed_section(
        "a = 1\n",
        "port = 54321\nlisten_addresses = '127.0.0.1'\nunix_socket_directories = ''\nwal_level = logical\nmax_replication_slots = 4\nmax_wal_senders = 4\n",
    );
    assert_eq!(conf, Effect::WriteFile("/d/postgresql.conf".to_string(), expected));
    assert_eq!(
        s.step(&Outcome::Done),
        Effect::WriteFile("/d/pg_hba.conf".to_string(), PG_HBA_CONF.to_string())
    );
    assert_eq!(s.step(&Outcome::Done), Effect::CreateLog("/d/postgres.log".to_string()));
    assert_eq!(s.step(&Outcome::Done), Effect::CloneLog);
    assert_eq!(
        s.step(&Outcome::Done),
        Effect::Spawn("/c/vanilla/bin/postgres".to_string(), strings(&["-D", "/d"]))
    );
    assert_eq!(s.step(&Outcome::Done), Effect::StartClock);
    assert_eq!(s.step(&Outcome::Done), Effect::ReadClock);
    assert_eq!(
        s.step(&Outcome::Elapsed(1_000)),
        Effect::Connect("127.0.0.1".to_string(), 54321)
    );
    assert_eq!(s.step(&Outcome::Connected(false)), Effect::Sleep(100));
    assert_eq!(s.step(&Outcome::Done), Effect::ReadClock);
    assert_eq!(
        s.step(&Outcome::Elapsed(2_000_000)),
        Effect::Connect("127.0.0.1".to_string(), 54321)
    );
    assert_eq!(s.step(&Outcome::Connected(true)), Effect::Finish(Ok(())));
    let i = s.into_instance();
    assert!(i.has_child());
    assert_eq!(i.connection_string(), "postgresql://postgres@127.0.0.1:54321/postgres");
}

#[test]
fn start_of_an_initialized_directory_skips_initdb() {
    let (mut s, _) = Start::new(Config { port: 5433, ..config() }, "x86_64", "linux", None);
    assert_eq!(s.step(&Outcome::Exists(true)), Effect::CreateDirAll("/d".to_string()));
    s.step(&Outcome::Done);
    assert_eq!(
        s.step(&Outcome::Exists(true)),
        Effect::ReadFile("/d/postgresql.conf".to_string())
    );
    assert_eq!(s.config().port, 5433);
}

#[test]
fn start_fails_when_initdb_fails() {
    let mut s = started();
    s.step(&Outcome::Port(1));
    s.step(&Outcome::Done);
    s.step(&Outcome::Exists(false));
    assert_eq!(
        s.step(&Outcome::Finished(false, "initdb: error".to_string())),
        Effect::Finish(Err(Error::InitDb("initdb: error".to_string())))
    );
}

#[test]
fn start_gives_up_after_thirty_seconds() {
    let mut s = started();
    s.step(&Outcome::Port(1));
    s.step(&Outcome::Done);
    s.step(&Outcome::Exists(true));
    s.step(&Outcome::Content(None));
    s.step(&Outcome::Done);
    s.step(&Outcome::Done);
    s.step(&Outcome::Done);
    s.step(&Outcome::Done);
    s.step(&Outcome::Done);
    assert_eq!(s.step(&Outcome::Done), Effect::ReadClock);
    assert_eq!(
        s.step(&Outcome::Elapsed(30_000_000_000)),
        Effect::Connect("127.0.0.1".to_string(), 1)
    );
    s.step(&Outcome::Connected(false));
    s.step(&Outcome::Done);
    assert_eq!(
        s.step(&Outcome::Elapsed(30_000_000_001)),
        Effect::Finish(Err(Error::Start("postgres did not become ready in 30s".to_string())))
    );
    // The spawned server is left to be released.
    assert!(s.spawned());
    let i = s.into_instance();
    assert!(i.has_child());
    assert_eq!(i.port(), 1);
}

#[test]
fn start_reports_spawn_and_log_failures() {
    let mut s = started();
    s.step(&Outcome::Port(1));
    s.step(&Outcome::Done);
    s.step(&Outcome::Exists(true));
    s.step(&Outcome::Content(None));
    s.step(&Outcome::Done);
    s.step(&Outcome::Done);
    assert_eq!(
        s.step(&Outcome::Failed("denied".to_string())),
        Effect::Finish(Err(Error::Start("failed to create log file: denied".to_string())))
    );
    assert!(!s.spawned());
    assert!(!s.into_instance().has_child());
}

#[test]
fn stop_of_a_temporary_instance() {
    let mut i = Instance::new(config(), true);
    assert_eq!(i.connection_string(), "postgresql://postgres@127.0.0.1:0/postgres");
    assert_eq!(
        i.begin_shutdown(ShutdownKind::Stop),
        Effect::Run(
            "/c/vanilla/bin/pg_ctl".to_string(),
            strings(&["stop", "-D", "/d", "-m", "fast", "-w"]),
            false
        )
    );
    assert_eq!(i.shutdown_step(&Outcome::Finished(true, String::new())), Effect::ForgetChild);
    assert_eq!(i.shutdown_step(&Outcome::Done), Effect::CheckPath("/d".to_string()));
    assert!(!i.has_child());
    assert_eq!(i.shutdown_step(&Outcome::Exists(true)), Effect::RemoveDirAll("/d".to_string()));
    assert_eq!(i.shutdown_step(&Outcome::Done), Effect::Finish(Ok(())));
    assert!(!i.config().temporary);
    // A second stop has nothing left to do.
    assert_eq!(i.begin_shutdown(ShutdownKind::Stop), Effect::Finish(Ok(())));
}

#[test]
fn failed_pg_ctl_kills_the_server() {
    let mut i = Instance::new(Config { temporary: false, ..config() }, true);
    i.begin_shutdown(ShutdownKind::Stop);
    assert_eq!(
        i.shutdown_step(&Outcome::Finished(false, String::new())),
        Effect::KillChild
    );
    assert_eq!(i.shutdown_step(&Outcome::Done), Effect::WaitChild);
    assert_eq!(i.shutdown_step(&Outcome::Done), Effect::ForgetChild);
    assert_eq!(i.shutdown_step(&Outcome::Done), Effect::Finish(Ok(())));
}

#[test]
fn release_waits_for_the_server_after_pg_ctl() {
    let mut i = Instance::new(config(), true);
    i.begin_shutdown(ShutdownKind::Release);
    assert_eq!(
        i.shutdown_step(&Outcome::Finished(true, String::new())),
        Effect::WaitChild
    );
    assert_eq!(i.shutdown_step(&Outcome::Done), Effect::CheckPath("/d".to_string()));
    assert_eq!(i.shutdown_step(&Outcome::Exists(false)), Effect::Finish(Ok(())));
}

#[test]
fn drop_after_stop_does_nothing() {
    let mut i = Instance::new(Config { temporary: false, ..config() }, true);
    i.begin_shutdown(ShutdownKind::Stop);
    i.shutdown_step(&Outcome::Finished(true, String::new()));
    assert_eq!(i.shutdown_step(&Outcome::Done), Effect::Finish(Ok(())));
    assert_eq!(i.begin_shutdown(ShutdownKind::Release), Effect::Finish(Ok(())));
    assert!(!i.has_child());
    assert!(!i.config().temporary);
}

#[test]
fn second_stop_after_a_missing_data_dir_only_looks_again() {
    let mut i = Instance::new(config(), false);
    assert_eq!(i.begin_shutdown(ShutdownKind::Stop), Effect::CheckPath("/d".to_string()));
    assert_eq!(i.shutdown_step(&Outcome::Exists(false)), Effect::Finish(Ok(())));
    assert_eq!(i.begin_shutdown(ShutdownKind::Stop), Effect::CheckPath("/d".to_string()));
    assert_eq!(i.shutdown_step(&Outcome::Exists(false)), Effect::Finish(Ok(())));
    assert!(i.config().temporary);
}
