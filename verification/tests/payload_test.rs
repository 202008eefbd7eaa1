use postg::config::{Config, Engine};
use postg::effects::{Effect, Outcome};
use postg::error::Error;
use postg::payload::{download_url, marker_path, release_file_name, release_target, Extraction};

fn config() -> Config {
    Config {
        cache_dir: "/c".to_string(),
        ..Config::default_with(None, "/tmp".to_string(), 1)
    }
}

#[test]
fn release_names() {
    let target = release_target("x86_64", "linux");
    assert_eq!(target, "x86_64-unknown-linux-gnu");
    assert_eq!(
        release_file_name(Engine::Spock, 17, &target),
        "postgresql-spock-17-x86_64-unknown-linux-gnu.tar.gz"
    );
    assert_eq!(download_url("http://h", "f.tar.gz"), "http://h/f.tar.gz");
    assert_eq!(marker_path(&config()), "/c/vanilla/.extracted");
}

#[test]
fn extraction_is_skipped_when_marker_exists() {
    let (mut x, first) = Extraction::new(&config(), None, "x86_64", "linux", None);
    assert_eq!(first, Effect::CheckPath("/c/vanilla/.extracted".to_string()));
    assert_eq!(x.step(&Outcome::Exists(true)), Effect::Finish(Ok(())));
    assert!(x.is_finished());
}

#[test]
fn extraction_of_a_given_archive() {
    let (mut x, _) =
        Extraction::new(&config(), Some("/a/test.tar.gz".to_string()), "x86_64", "linux", None);
    assert_eq!(x.step(&Outcome::Exists(false)), Effect::CreateDirAll("/c".to_string()));
    assert_eq!(
        x.step(&Outcome::Done),
        Effect::CheckPath("/c/vanilla/.extracted".to_string())
    );
    assert_eq!(
        x.step(&Outcome::Exists(false)),
        Effect::MakeTempDir("/c".to_string(), ".extract-".to_string())
    );
    assert_eq!(
        x.step(&Outcome::TempDir("/c/.extract-1".to_string())),
        Effect::OpenArchive("/a/test.tar.gz".to_string())
    );
    assert_eq!(x.step(&Outcome::Done), Effect::Unpack("/c/.extract-1".to_string()));
    assert_eq!(
        x.step(&Outcome::Done),
        Effect::WriteFile("/c/.extract-1/.extracted".to_string(), String::new())
    );
    assert_eq!(x.step(&Outcome::Done), Effect::CheckPath("/c/vanilla".to_string()));
    assert_eq!(x.step(&Outcome::Exists(true)), Effect::RemoveDirAll("/c/vanilla".to_string()));
    assert_eq!(
        x.step(&Outcome::Done),
        Effect::Rename("/c/.extract-1".to_string(), "/c/vanilla".to_string())
    );
    assert_eq!(x.step(&Outcome::Done), Effect::KeepTempDir);
    assert_eq!(x.step(&Outcome::Done), Effect::Finish(Ok(())));
}

#[test]
fn extraction_errors_on_missing_or_corrupt_archive() {
    let (mut x, _) =
        Extraction::new(&config(), Some("/a/missing.tar.gz".to_string()), "x86_64", "linux", None);
    x.step(&Outcome::Exists(false));
    x.step(&Outcome::Done);
    x.step(&Outcome::Exists(false));
    x.step(&Outcome::TempDir("/c/.extract-2".to_string()));
    assert_eq!(
        x.step(&Outcome::Failed("No such file or directory".to_string())),
        Effect::Finish(Err(Error::Extract(
            "failed to open /a/missing.tar.gz: No such file or directory".to_string()
        )))
    );
    let (mut y, _) =
        Extraction::new(&config(), Some("/a/corrupt.tar.gz".to_string()), "x86_64", "linux", None);
    y.step(&Outcome::Exists(false));
    y.step(&Outcome::Done);
    y.step(&Outcome::Exists(false));
    y.step(&Outcome::TempDir("/c/.extract-3".to_string()));
    y.step(&Outcome::Done);
    assert_eq!(
        y.step(&Outcome::Failed("invalid gzip header".to_string())),
        Effect::Finish(Err(Error::Extract(
            "failed to unpack archive: invalid gzip header".to_string()
        )))
    );
}

#[test]
fn extraction_downloads_into_the_cache() {
    let (mut x, _) = Extraction::new(
        &config(),
        None,
        "aarch64",
        "linux",
        Some("http://127.0.0.1:9".to_string()),
    );
    x.step(&Outcome::Exists(false));
    x.step(&Outcome::Done);
    let archive = "/c/postgresql-17-aarch64-unknown-linux-gnu.tar.gz".to_string();
    assert_eq!(x.step(&Outcome::Exists(false)), Effect::CheckPath(archive.clone()));
    assert_eq!(
        x.step(&Outcome::Exists(false)),
        Effect::Fetch("http://127.0.0.1:9/postgresql-17-aarch64-unknown-linux-gnu.tar.gz".to_string())
    );
    assert_eq!(
        x.step(&Outcome::Fetched(200, "200 OK".to_string())),
        Effect::CreateFile(archive.clone())
    );
    assert_eq!(x.step(&Outcome::Done), Effect::CopyBody);
    assert_eq!(
        x.step(&Outcome::Done),
        Effect::MakeTempDir("/c".to_string(), ".extract-".to_string())
    );
    assert_eq!(x.step(&Outcome::TempDir("/c/t".to_string())), Effect::OpenArchive(archive));
}

#[test]
fn extraction_reports_http_and_network_errors() {
    let (mut x, _) =
        Extraction::new(&config(), None, "x86_64", "linux", Some("http://h".to_string()));
    x.step(&Outcome::Exists(false));
    x.step(&Outcome::Done);
    x.step(&Outcome::Exists(false));
    x.step(&Outcome::Exists(false));
    assert_eq!(
        x.step(&Outcome::Fetched(404, "404 Not Found".to_string())),
        Effect::Finish(Err(Error::Extract(
            "failed to download http://h/postgresql-17-x86_64-unknown-linux-gnu.tar.gz: HTTP 404 Not Found"
                .to_string()
        )))
    );
    let (mut y, _) =
        Extraction::new(&config(), None, "x86_64", "linux", Some("http://h".to_string()));
    y.step(&Outcome::Exists(false));
    y.step(&Outcome::Done);
    y.step(&Outcome::Exists(false));
    y.step(&Outcome::Exists(false));
    assert_eq!(
        y.step(&Outcome::Failed("connection refused".to_string())),
        Effect::Finish(Err(Error::Extract(
            "failed to download http://h/postgresql-17-x86_64-unknown-linux-gnu.tar.gz: connection refused"
                .to_string()
        )))
    );
}

#[test]
fn cached_archive_is_not_downloaded_again() {
    let (mut x, _) = Extraction::new(&config(), None, "x86_64", "macos", None);
    x.step(&Outcome::Exists(false));
    x.step(&Outcome::Done);
    x.step(&Outcome::Exists(false));
    assert_eq!(
        x.step(&Outcome::Exists(true)),
        Effect::MakeTempDir("/c".to_string(), ".extract-".to_string())
    );
}

#[test]
fn extraction_errors_on_cache_dir_and_marker_failures() {
    let (mut x, _) = Extraction::new(&config(), None, "x86_64", "linux", None);
    x.step(&Outcome::Exists(false));
    assert_eq!(
        x.step(&Outcome::Failed("denied".to_string())),
        Effect::Finish(Err(Error::Extract("failed to create cache dir /c: denied".to_string())))
    );
    assert_eq!(
        Error::Extract("x".to_string()).to_string(),
        "extraction failed: x"
    );
}
