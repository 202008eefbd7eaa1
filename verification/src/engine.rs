use vstd::prelude::*;
use vstd::string::*;
use crate::config::{connection_string_of, engine_name, pg_bin_of, Config};
use crate::effects::{Effect, EffectView, Outcome, OutcomeView, failure_message, failure_text, strings_view};
use crate::error::{Error, ErrorView};
use crate::payload::{extract_next, extraction_of, marker_path_of, Extraction, ExtractionView};
use crate::pgconf::{managed_settings, managed_settings_of, rewrite_conf, rewrite_managed_section};
use crate::text::{cat2, join_path, path_join};

verus! {

/// The content written to `pg_hba.conf`: trust every local connection,
/// replication included.
pub const PG_HBA_CONF: &'static str = "# postg: trust all local connections\nlocal all all trust\nhost all all 127.0.0.1/32 trust\nhost all all ::1/128 trust\nhost replication all 127.0.0.1/32 trust\nhost replication all ::1/128 trust\n";

/// How long the server may take to accept connections, in nanoseconds.
pub const READY_TIMEOUT_NANOS: u64 = 30_000_000_000;

/// How long to wait between connection attempts, in milliseconds.
pub const READY_POLL_MILLIS: u64 = 100;

pub open spec fn data_file_of(c: Config, name: Seq<char>) -> Seq<char> {
    join_path(c.data_dir@, name)
}

/// The arguments of `initdb`: trust authentication, UTF-8, the configured
/// superuser and data directory.
pub open spec fn initdb_args_of(c: Config) -> Seq<Seq<char>> {
    seq!["--auth=trust"@, "--encoding=UTF8"@, "-U"@, c.username@, "-D"@, c.data_dir@]
}

/// The arguments of the server: its data directory.
pub open spec fn postgres_args_of(c: Config) -> Seq<Seq<char>> {
    seq!["-D"@, c.data_dir@]
}

/// The arguments of a fast `pg_ctl stop` that waits for the server.
pub open spec fn pg_ctl_stop_args_of(c: Config) -> Seq<Seq<char>> {
    seq!["stop"@, "-D"@, c.data_dir@, "-m"@, "fast"@, "-w"@]
}

fn data_file(config: &Config, name: &str) -> (p: String)
    ensures
        p@ == data_file_of(*config, name@),
{
    path_join(config.data_dir.as_str(), name)
}

/// The arguments `initdb` is run with.
pub fn initdb_args(config: &Config) -> (a: Vec<String>)
    ensures
        strings_view(a@) == initdb_args_of(*config),
{
    let a = vec![
        String::from_str("--auth=trust"),
        String::from_str("--encoding=UTF8"),
        String::from_str("-U"),
        config.username.clone(),
        String::from_str("-D"),
        config.data_dir.clone(),
    ];
    assert(strings_view(a@) =~= initdb_args_of(*config));
    a
}

/// The arguments the server is started with.
pub fn postgres_args(config: &Config) -> (a: Vec<String>)
    ensures
        strings_view(a@) == postgres_args_of(*config),
{
    let a = vec![String::from_str("-D"), config.data_dir.clone()];
    assert(strings_view(a@) =~= postgres_args_of(*config));
    a
}

/// The arguments `pg_ctl` is run with to stop the server.
pub fn pg_ctl_stop_args(config: &Config) -> (a: Vec<String>)
    ensures
        strings_view(a@) == pg_ctl_stop_args_of(*config),
{
    let a = vec![
        String::from_str("stop"),
        String::from_str("-D"),
        config.data_dir.clone(),
        String::from_str("-m"),
        String::from_str("fast"),
        String::from_str("-w"),
    ];
    assert(strings_view(a@) =~= pg_ctl_stop_args_of(*config));
    a
}

/// Where a start stands: which effect it waits on.
#[derive(Debug, Clone, Copy, PartialEq, Eq, Structural)]
pub enum StartPhase {
    Extracting,
    PickingPort,
    CreatingDataDir,
    CheckingInitialized,
    RunningInitDb,
    ReadingConf,
    WritingConf,
    WritingHba,
    CreatingLog,
    CloningLog,
    Spawning,
    StartingClock,
    ReadingClock,
    Connecting,
    Sleeping,
    Finished,
}

/// The start of an instance: the engine's binaries are extracted, an
/// ephemeral port is picked when none is configured, the data directory is
/// created and initialized when it holds no `PG_VERSION`, the managed
/// settings and `pg_hba.conf` are written, the server is spawned and
/// connections are tried until it accepts one or 30 seconds have passed.
/// Once the server is spawned it belongs to the start, also when the start
/// then fails: it is handed on by `into_instance`, to be released.
pub struct Start {
    config: Config,
    extraction: Extraction,
    phase: StartPhase,
    spawned: bool,
}

pub struct StartView {
    pub config: Config,
    pub extraction: ExtractionView,
    pub phase: StartPhase,
    pub spawned: bool,
}

impl View for Start {
    type V = StartView;

    closed spec fn view(&self) -> StartView {
        StartView {
            config: self.config,
            extraction: self.extraction@,
            phase: self.phase,
            spawned: self.spawned,
        }
    }
}

pub open spec fn start_in(s: StartView, p: StartPhase) -> StartView {
    StartView { phase: p, ..s }
}

pub open spec fn start_failed(s: StartView, e: ErrorView) -> (StartView, EffectView) {
    (start_in(s, StartPhase::Finished), EffectView::Finish(Err(e)))
}

/// What comes after the binaries are in place.
pub open spec fn after_extraction(s: StartView) -> (StartView, EffectView) {
    if s.config.port == 0 {
        (start_in(s, StartPhase::PickingPort), EffectView::PickPort("127.0.0.1"@))
    } else {
        (start_in(s, StartPhase::CreatingDataDir), EffectView::CreateDirAll(s.config.data_dir@))
    }
}

/// What comes after `initdb`, or instead of it.
pub open spec fn read_conf(s: StartView) -> (StartView, EffectView) {
    (
        start_in(s, StartPhase::ReadingConf),
        EffectView::ReadFile(data_file_of(s.config, "postgresql.conf"@)),
    )
}

/// The next state and effect of a start, given what the last effect gave.
pub open spec fn start_next(s: StartView, o: OutcomeView) -> (StartView, EffectView) {
    let c = s.config;
    match s.phase {
        StartPhase::Extracting => {
            let (x, e) = extract_next(s.extraction, o);
            match e {
                EffectView::Finish(Ok(())) => after_extraction(StartView { extraction: x, ..s }),
                EffectView::Finish(Err(err)) => start_failed(StartView { extraction: x, ..s }, err),
                _ => (StartView { extraction: x, ..s }, e),
            }
        },
        StartPhase::PickingPort => match o {
            OutcomeView::Port(p) => (
                StartView {
                    config: Config { port: p, ..c },
                    phase: StartPhase::CreatingDataDir,
                    ..s
                },
                EffectView::CreateDirAll(c.data_dir@),
            ),
            _ => start_failed(s, ErrorView::Io(failure_text(o))),
        },
        StartPhase::CreatingDataDir => if o == OutcomeView::Done {
            (
                start_in(s, StartPhase::CheckingInitialized),
                EffectView::CheckPath(data_file_of(c, "PG_VERSION"@)),
            )
        } else {
            start_failed(s, ErrorView::Io(failure_text(o)))
        },
        StartPhase::CheckingInitialized => if o == OutcomeView::Exists(true) {
            read_conf(s)
        } else {
            (
                start_in(s, StartPhase::RunningInitDb),
                EffectView::Run(pg_bin_of(c, "initdb"@), initdb_args_of(c), true),
            )
        },
        StartPhase::RunningInitDb => match o {
            OutcomeView::Finished(ok, stderr) => if ok {
                read_conf(s)
            } else {
                start_failed(s, ErrorView::InitDb(stderr))
            },
            _ => start_failed(s, ErrorView::Io(failure_text(o))),
        },
        StartPhase::ReadingConf => {
            let existing = match o {
                OutcomeView::Content(Some(text)) => text,
                _ => Seq::empty(),
            };
            (
                start_in(s, StartPhase::WritingConf),
                EffectView::WriteFile(
                    data_file_of(c, "postgresql.conf"@),
                    rewrite_conf(existing, managed_settings_of(c)),
                ),
            )
        },
        StartPhase::WritingConf => if o == OutcomeView::Done {
            (
                start_in(s, StartPhase::WritingHba),
                EffectView::WriteFile(data_file_of(c, "pg_hba.conf"@), PG_HBA_CONF@),
            )
        } else {
            start_failed(s, ErrorView::Io(failure_text(o)))
        },
        StartPhase::WritingHba => if o == OutcomeView::Done {
            (
                start_in(s, StartPhase::CreatingLog),
                EffectView::CreateLog(data_file_of(c, "postgres.log"@)),
            )
        } else {
            start_failed(s, ErrorView::Io(failure_text(o)))
        },
        StartPhase::CreatingLog => if o == OutcomeView::Done {
            (start_in(s, StartPhase::CloningLog), EffectView::CloneLog)
        } else {
            start_failed(s, ErrorView::Start("failed to create log file: "@ + failure_text(o)))
        },
        StartPhase::CloningLog => if o == OutcomeView::Done {
            (
                start_in(s, StartPhase::Spawning),
                EffectView::Spawn(pg_bin_of(c, "postgres"@), postgres_args_of(c)),
            )
        } else {
            start_failed(s, ErrorView::Start(failure_text(o)))
        },
        StartPhase::Spawning => if o == OutcomeView::Done {
            (
                StartView { phase: StartPhase::StartingClock, spawned: true, ..s },
                EffectView::StartClock,
            )
        } else {
            start_failed(s, ErrorView::Start("failed to spawn postgres: "@ + failure_text(o)))
        },
        StartPhase::StartingClock => (start_in(s, StartPhase::ReadingClock), EffectView::ReadClock),
        StartPhase::ReadingClock => {
            let elapsed = match o {
                OutcomeView::Elapsed(n) => n,
                _ => 0,
            };
            if elapsed > READY_TIMEOUT_NANOS {
                start_failed(s, ErrorView::Start("postgres did not become ready in 30s"@))
            } else {
                (start_in(s, StartPhase::Connecting), EffectView::Connect(c.host@, c.port))
            }
        },
        StartPhase::Connecting => if o == OutcomeView::Connected(true) {
            (start_in(s, StartPhase::Finished), EffectView::Finish(Ok(())))
        } else {
            (start_in(s, StartPhase::Sleeping), EffectView::Sleep(READY_POLL_MILLIS))
        },
        StartPhase::Sleeping => (start_in(s, StartPhase::ReadingClock), EffectView::ReadClock),
        StartPhase::Finished => (s, EffectView::Finish(Ok(()))),
    }
}

} // verus!

verus! {

impl Start {
    /// Begins starting an instance of `config`, extracting the engine's
    /// binaries for the platform first (see `Extraction::new`). Returns the
    /// start and its first effect.
    pub fn new(config: Config, arch: &str, os: &str, download_base: Option<String>) -> (r: (
        Start,
        Effect,
    ))
        ensures
            r.0@ == (StartView {
                config,
                extraction: extraction_of(
                    config,
                    None,
                    arch@,
                    os@,
                    match download_base {
                        Some(b) => Some(b@),
                        None => None,
                    },
                ),
                phase: StartPhase::Extracting,
                spawned: false,
            }),
            r.1@ == EffectView::CheckPath(marker_path_of(config)),
    {
        let (extraction, first) = Extraction::new(&config, None, arch, os, download_base);
        (Start { config, extraction, phase: StartPhase::Extracting, spawned: false }, first)
    }
}


impl Start {
    fn finish_with(&mut self, e: Error) -> (r: Effect)
        ensures
            (final(self)@, r@) == start_failed(old(self)@, e@),
    {
        self.phase = StartPhase::Finished;
        Effect::Finish(Err(e))
    }

    fn after_extraction(&mut self) -> (r: Effect)
        ensures
            (final(self)@, r@) == after_extraction(old(self)@),
    {
        if self.config.port == 0 {
            self.phase = StartPhase::PickingPort;
            Effect::PickPort(String::from_str("127.0.0.1"))
        } else {
            self.phase = StartPhase::CreatingDataDir;
            Effect::CreateDirAll(self.config.data_dir.clone())
        }
    }

    fn read_conf(&mut self) -> (r: Effect)
        ensures
            (final(self)@, r@) == read_conf(old(self)@),
    {
        self.phase = StartPhase::ReadingConf;
        Effect::ReadFile(data_file(&self.config, "postgresql.conf"))
    }

    /// Takes in what the last effect gave and returns the next effect.
    pub fn step(&mut self, o: &Outcome) -> (e: Effect)
        ensures
            (final(self)@, e@) == start_next(old(self)@, o@),
    {
        let failure = failure_message(o);
        match self.phase {
            StartPhase::Extracting => {
                let e = self.extraction.step(o);
                match e {
                    Effect::Finish(Ok(())) => self.after_extraction(),
                    Effect::Finish(Err(err)) => self.finish_with(err),
                    other => other,
                }
            },
            StartPhase::PickingPort => match o {
                Outcome::Port(p) => {
                    self.config.port = *p;
                    self.phase = StartPhase::CreatingDataDir;
                    Effect::CreateDirAll(self.config.data_dir.clone())
                },
                _ => self.finish_with(Error::Io(failure)),
            },
            StartPhase::CreatingDataDir => match o {
                Outcome::Done => {
                    self.phase = StartPhase::CheckingInitialized;
                    Effect::CheckPath(data_file(&self.config, "PG_VERSION"))
                },
                _ => self.finish_with(Error::Io(failure)),
            },
            StartPhase::CheckingInitialized => match o {
                Outcome::Exists(true) => self.read_conf(),
                _ => {
                    self.phase = StartPhase::RunningInitDb;
                    Effect::Run(self.config.pg_bin("initdb"), initdb_args(&self.config), true)
                },
            },
            StartPhase::RunningInitDb => match o {
                Outcome::Finished(ok, stderr) => {
                    if *ok {
                        self.read_conf()
                    } else {
                        self.finish_with(Error::InitDb(stderr.clone()))
                    }
                },
                _ => self.finish_with(Error::Io(failure)),
            },
            StartPhase::ReadingConf => {
                let settings = managed_settings(&self.config);
                let content = match o {
                    Outcome::Content(Some(text)) => rewrite_managed_section(
                        text.as_str(),
                        settings.as_str(),
                    ),
                    _ => rewrite_managed_section("", settings.as_str()),
                };
                proof {
                    reveal_strlit("");
                    assert(""@ =~= Seq::<char>::empty());
                }
                self.phase = StartPhase::WritingConf;
                Effect::WriteFile(data_file(&self.config, "postgresql.conf"), content)
            },
            StartPhase::WritingConf => match o {
                Outcome::Done => {
                    self.phase = StartPhase::WritingHba;
                    Effect::WriteFile(
                        data_file(&self.config, "pg_hba.conf"),
                        String::from_str(PG_HBA_CONF),
                    )
                },
                _ => self.finish_with(Error::Io(failure)),
            },
            StartPhase::WritingHba => match o {
                Outcome::Done => {
                    self.phase = StartPhase::CreatingLog;
                    Effect::CreateLog(data_file(&self.config, "postgres.log"))
                },
                _ => self.finish_with(Error::Io(failure)),
            },
            StartPhase::CreatingLog => match o {
                Outcome::Done => {
                    self.phase = StartPhase::CloningLog;
                    Effect::CloneLog
                },
                _ => self.finish_with(
                    Error::Start(cat2("failed to create log file: ", failure.as_str())),
                ),
            },
            StartPhase::CloningLog => match o {
                Outcome::Done => {
                    self.phase = StartPhase::Spawning;
                    Effect::Spawn(self.config.pg_bin("postgres"), postgres_args(&self.config))
                },
                _ => self.finish_with(Error::Start(failure)),
            },
            StartPhase::Spawning => match o {
                Outcome::Done => {
                    self.phase = StartPhase::StartingClock;
                    self.spawned = true;
                    Effect::StartClock
                },
                _ => self.finish_with(
                    Error::Start(cat2("failed to spawn postgres: ", failure.as_str())),
                ),
            },
            StartPhase::StartingClock => {
                self.phase = StartPhase::ReadingClock;
                Effect::ReadClock
            },
            StartPhase::ReadingClock => {
                let elapsed = match o {
                    Outcome::Elapsed(n) => *n,
                    _ => 0,
                };
                if elapsed > READY_TIMEOUT_NANOS {
                    self.finish_with(
                        Error::Start(String::from_str("postgres did not become ready in 30s")),
                    )
                } else {
                    self.phase = StartPhase::Connecting;
                    Effect::Connect(self.config.host.clone(), self.config.port)
                }
            },
            StartPhase::Connecting => match o {
                Outcome::Connected(true) => {
                    self.phase = StartPhase::Finished;
                    Effect::Finish(Ok(()))
                },
                _ => {
                    self.phase = StartPhase::Sleeping;
                    Effect::Sleep(READY_POLL_MILLIS)
                },
            },
            StartPhase::Sleeping => {
                self.phase = StartPhase::ReadingClock;
                Effect::ReadClock
            },
            StartPhase::Finished => Effect::Finish(Ok(())),
        }
    }

    /// The configuration as it stands, with the picked port once there is one.
    pub fn config(&self) -> (c: &Config)
        ensures
            *c == self@.config,
    {
        &self.config
    }

    /// Whether the server has been spawned.
    pub fn spawned(&self) -> (b: bool)
        ensures
            b == self@.spawned,
    {
        self.spawned
    }

    /// The instance a start leaves behind: its configuration, owning the
    /// server if one was spawned. After a successful start it is the running
    /// instance; after a failed one, it is what must be released.
    pub fn into_instance(self) -> (i: Instance)
        ensures
            i@ == (InstanceView {
                config: self@.config,
                has_child: self@.spawned,
                kind: ShutdownKind::Stop,
                phase: ShutdownPhase::Idle,
            }),
    {
        Instance::new(self.config, self.spawned)
    }
}

} // verus!

verus! {

/// Why an instance is being shut down: an explicit stop, or the handle going away.
#[derive(Debug, Clone, Copy, PartialEq, Eq, Structural)]
pub enum ShutdownKind {
    /// `stop`: the handle is kept, and marked as stopped.
    Stop,
    /// The handle is dropped.
    Release,
}

/// Where a shutdown stands: which effect it waits on.
#[derive(Debug, Clone, Copy, PartialEq, Eq, Structural)]
pub enum ShutdownPhase {
    Idle,
    StoppingServer,
    Killing,
    Reaping,
    Forgetting,
    CheckingDataDir,
    RemovingDataDir,
    Done,
}

/// A running (or once running) instance: its configuration, whether a
/// server process belongs to it, and the state of its shutdown.
pub struct Instance {
    config: Config,
    has_child: bool,
    kind: ShutdownKind,
    phase: ShutdownPhase,
}

pub struct InstanceView {
    pub config: Config,
    pub has_child: bool,
    pub kind: ShutdownKind,
    pub phase: ShutdownPhase,
}

impl View for Instance {
    type V = InstanceView;

    closed spec fn view(&self) -> InstanceView {
        InstanceView {
            config: self.config,
            has_child: self.has_child,
            kind: self.kind,
            phase: self.phase,
        }
    }
}

pub open spec fn shutdown_in(s: InstanceView, p: ShutdownPhase) -> InstanceView {
    InstanceView { phase: p, ..s }
}

/// After the server is dealt with: a temporary instance's data directory is
/// removed if it exists.
pub open spec fn shutdown_cleanup(s: InstanceView) -> (InstanceView, EffectView) {
    if s.config.temporary {
        (shutdown_in(s, ShutdownPhase::CheckingDataDir), EffectView::CheckPath(s.config.data_dir@))
    } else {
        (shutdown_in(s, ShutdownPhase::Done), EffectView::Finish(Ok(())))
    }
}

/// The first effect of a shutdown: a fast `pg_ctl stop` when a server
/// belongs to the instance.
pub open spec fn shutdown_begin(s: InstanceView, kind: ShutdownKind) -> (InstanceView, EffectView) {
    let s = InstanceView { kind, ..s };
    if s.has_child {
        (
            shutdown_in(s, ShutdownPhase::StoppingServer),
            EffectView::Run(pg_bin_of(s.config, "pg_ctl"@), pg_ctl_stop_args_of(s.config), false),
        )
    } else {
        shutdown_cleanup(s)
    }
}

/// What follows waiting for the server process.
pub open spec fn after_reaping(s: InstanceView) -> (InstanceView, EffectView) {
    if s.kind == ShutdownKind::Stop {
        (shutdown_in(s, ShutdownPhase::Forgetting), EffectView::ForgetChild)
    } else {
        shutdown_cleanup(s)
    }
}

/// The next state and effect of a shutdown: when `pg_ctl` fails the server
/// is killed; its process is waited for (on a stop, only after a kill); a
/// stop lets go of it; then the data directory of a temporary instance is
/// removed, and a stop marks the instance as no longer temporary.
pub open spec fn shutdown_next(s: InstanceView, o: OutcomeView) -> (InstanceView, EffectView) {
    match s.phase {
        ShutdownPhase::StoppingServer => if o matches OutcomeView::Finished(true, _) {
            if s.kind == ShutdownKind::Stop {
                (shutdown_in(s, ShutdownPhase::Forgetting), EffectView::ForgetChild)
            } else {
                (shutdown_in(s, ShutdownPhase::Reaping), EffectView::WaitChild)
            }
        } else {
            (shutdown_in(s, ShutdownPhase::Killing), EffectView::KillChild)
        },
        ShutdownPhase::Killing => (shutdown_in(s, ShutdownPhase::Reaping), EffectView::WaitChild),
        ShutdownPhase::Reaping => after_reaping(s),
        ShutdownPhase::Forgetting => shutdown_cleanup(InstanceView { has_child: false, ..s }),
        ShutdownPhase::CheckingDataDir => if o == OutcomeView::Exists(true) {
            (
                shutdown_in(s, ShutdownPhase::RemovingDataDir),
                EffectView::RemoveDirAll(s.config.data_dir@),
            )
        } else {
            (shutdown_in(s, ShutdownPhase::Done), EffectView::Finish(Ok(())))
        },
        ShutdownPhase::RemovingDataDir => {
            let config = if s.kind == ShutdownKind::Stop {
                Config { temporary: false, ..s.config }
            } else {
                s.config
            };
            (
                InstanceView { config, phase: ShutdownPhase::Done, ..s },
                EffectView::Finish(Ok(())),
            )
        },
        _ => (s, EffectView::Finish(Ok(()))),
    }
}

impl Instance {
    /// An instance of `config`, with a server process of its own or not.
    pub fn new(config: Config, has_child: bool) -> (i: Instance)
        ensures
            i@ == (InstanceView {
                config,
                has_child,
                kind: ShutdownKind::Stop,
                phase: ShutdownPhase::Idle,
            }),
    {
        Instance { config, has_child, kind: ShutdownKind::Stop, phase: ShutdownPhase::Idle }
    }

    /// The URL that clients connect with.
    pub fn connection_string(&self) -> (s: String)
        ensures
            s@ == connection_string_of(self@.config),
    {
        self.config.connection_string()
    }

    /// The port the server listens on.
    pub fn port(&self) -> (p: u16)
        ensures
            p == self@.config.port,
    {
        self.config.port
    }

    /// The instance's configuration.
    pub fn config(&self) -> (c: &Config)
        ensures
            *c == self@.config,
    {
        &self.config
    }

    /// Whether a server process belongs to the instance.
    pub fn has_child(&self) -> (b: bool)
        ensures
            b == self@.has_child,
    {
        self.has_child
    }

    fn cleanup(&mut self) -> (e: Effect)
        ensures
            (final(self)@, e@) == shutdown_cleanup(old(self)@),
    {
        if self.config.temporary {
            self.phase = ShutdownPhase::CheckingDataDir;
            Effect::CheckPath(self.config.data_dir.clone())
        } else {
            self.phase = ShutdownPhase::Done;
            Effect::Finish(Ok(()))
        }
    }

    /// Begins shutting the instance down; returns the first effect.
    pub fn begin_shutdown(&mut self, kind: ShutdownKind) -> (e: Effect)
        ensures
            (final(self)@, e@) == shutdown_begin(old(self)@, kind),
    {
        self.kind = kind;
        if self.has_child {
            self.phase = ShutdownPhase::StoppingServer;
            Effect::Run(self.config.pg_bin("pg_ctl"), pg_ctl_stop_args(&self.config), false)
        } else {
            self.cleanup()
        }
    }

    /// Takes in what the last effect of a shutdown gave and returns the next effect.
    pub fn shutdown_step(&mut self, o: &Outcome) -> (e: Effect)
        ensures
            (final(self)@, e@) == shutdown_next(old(self)@, o@),
    {
        match self.phase {
            ShutdownPhase::StoppingServer => match o {
                Outcome::Finished(true, _) => {
                    if self.kind == ShutdownKind::Stop {
                        self.phase = ShutdownPhase::Forgetting;
                        Effect::ForgetChild
                    } else {
                        self.phase = ShutdownPhase::Reaping;
                        Effect::WaitChild
                    }
                },
                _ => {
                    self.phase = ShutdownPhase::Killing;
                    Effect::KillChild
                },
            },
            ShutdownPhase::Killing => {
                self.phase = ShutdownPhase::Reaping;
                Effect::WaitChild
            },
            ShutdownPhase::Reaping => {
                if self.kind == ShutdownKind::Stop {
                    self.phase = ShutdownPhase::Forgetting;
                    Effect::ForgetChild
                } else {
                    self.cleanup()
                }
            },
            ShutdownPhase::Forgetting => {
                self.has_child = false;
                self.cleanup()
            },
            ShutdownPhase::CheckingDataDir => match o {
                Outcome::Exists(true) => {
                    self.phase = ShutdownPhase::RemovingDataDir;
                    Effect::RemoveDirAll(self.config.data_dir.clone())
                },
                _ => {
                    self.phase = ShutdownPhase::Done;
                    Effect::Finish(Ok(()))
                },
            },
            ShutdownPhase::RemovingDataDir => {
                if self.kind == ShutdownKind::Stop {
                    self.config.temporary = false;
                }
                self.phase = ShutdownPhase::Done;
                Effect::Finish(Ok(()))
            },
            _ => Effect::Finish(Ok(())),
        }
    }
}

} // verus!

verus! {

/// The order of a start: `initdb` runs only on a data directory without
/// `PG_VERSION`; the configuration files are written before the log is
/// created, and the server is spawned only after that.
pub proof fn lemma_start_order(s: StartView, o: OutcomeView)
    ensures
        start_next(s, o).1 matches EffectView::Run(p, _, _) ==> p == pg_bin_of(s.config, "initdb"@)
            && s.phase == StartPhase::CheckingInitialized && o != OutcomeView::Exists(true),
        start_next(s, o).0.phase == StartPhase::WritingHba && s.phase != StartPhase::WritingHba
            ==> s.phase == StartPhase::WritingConf && o == OutcomeView::Done,
        start_next(s, o).0.phase == StartPhase::CreatingLog && s.phase != StartPhase::CreatingLog
            ==> s.phase == StartPhase::WritingHba && o == OutcomeView::Done,
        start_next(s, o).1 is Spawn ==> s.phase == StartPhase::CloningLog && o
            == OutcomeView::Done,
{
}

/// A start succeeds only when a connection to the server succeeded, and it
/// gives up waiting only after more than 30 seconds.
pub proof fn lemma_start_ready(s: StartView, o: OutcomeView)
    requires
        s.phase != StartPhase::Finished,
    ensures
        start_next(s, o).1 == EffectView::Finish(Ok(())) ==> s.phase == StartPhase::Connecting
            && o == OutcomeView::Connected(true),
        start_next(s, o).1 == EffectView::Finish(
            Err(ErrorView::Start("postgres did not become ready in 30s"@)),
        ) && s.phase == StartPhase::ReadingClock ==> (o matches OutcomeView::Elapsed(n) && n
            > READY_TIMEOUT_NANOS),
{
}

/// Only picking a port changes the configuration, and a port is picked only
/// when port 0 is configured; the picked port then replaces it.
pub proof fn lemma_start_port(s: StartView, o: OutcomeView)
    ensures
        s.phase != StartPhase::PickingPort ==> start_next(s, o).0.config == s.config,
        start_next(s, o).0.phase == StartPhase::PickingPort && s.phase != StartPhase::PickingPort
            ==> s.config.port == 0,
        start_next(s, o).0.config.port != s.config.port ==> s.phase == StartPhase::PickingPort
            && o == OutcomeView::Port(start_next(s, o).0.config.port),
{
}

} // verus!

verus! {

/// What holds of a shutdown throughout: the data directory is looked at or
/// removed only for a temporary instance, and once a stop is past the
/// server, no server belongs to the instance any more.
pub open spec fn shutdown_inv(s: InstanceView) -> bool {
    &&& (s.phase == ShutdownPhase::CheckingDataDir || s.phase == ShutdownPhase::RemovingDataDir)
        ==> s.config.temporary
    &&& s.kind == ShutdownKind::Stop && (s.phase == ShutdownPhase::CheckingDataDir || s.phase
        == ShutdownPhase::RemovingDataDir || s.phase == ShutdownPhase::Done) ==> !s.has_child
}

/// Beginning a shutdown establishes its invariant, and every step keeps it.
pub proof fn lemma_shutdown_inv(s: InstanceView, kind: ShutdownKind, o: OutcomeView)
    ensures
        shutdown_inv(shutdown_begin(s, kind).0),
        shutdown_inv(s) ==> shutdown_inv(shutdown_next(s, o).0),
{
}

/// A shutdown removes nothing but the data directory of a temporary instance.
pub proof fn lemma_shutdown_removes_only_temporary_data(
    s: InstanceView,
    kind: ShutdownKind,
    o: OutcomeView,
)
    requires
        shutdown_inv(s),
    ensures
        !(shutdown_begin(s, kind).1 is RemoveDirAll),
        shutdown_next(s, o).1 matches EffectView::RemoveDirAll(p) ==> s.config.temporary && p
            == s.config.data_dir@,
{
}

/// When a stop finishes, no server belongs to the instance, and a temporary
/// instance whose data directory was removed is no longer temporary.
pub proof fn lemma_stop_releases_server(s: InstanceView, o: OutcomeView)
    requires
        shutdown_inv(s),
        s.kind == ShutdownKind::Stop,
        s.phase != ShutdownPhase::Idle,
    ensures
        shutdown_next(s, o).1 is Finish ==> !shutdown_next(s, o).0.has_child,
        s.phase == ShutdownPhase::RemovingDataDir ==> !shutdown_next(s, o).0.config.temporary,
{
}

/// A shutdown that has run its course.
pub open spec fn stopped(s: InstanceView) -> bool {
    s.phase == ShutdownPhase::Done && s.kind == ShutdownKind::Stop && shutdown_inv(s)
}

/// Stopping a stopped instance again runs no `pg_ctl` and kills nothing.
/// When the first stop removed the data directory, or the instance keeps its
/// data, the second stop changes nothing and finishes at once; otherwise it
/// only looks for the data directory again, and it removes it only if the
/// directory has reappeared since.
pub proof fn lemma_second_stop(s: InstanceView, o: OutcomeView)
    requires
        stopped(s),
    ensures
        !s.has_child,
        !s.config.temporary ==> shutdown_begin(s, ShutdownKind::Stop) == (
        s,
        EffectView::Finish(Ok(())),
        ),
        s.config.temporary ==> shutdown_begin(s, ShutdownKind::Stop) == (
        shutdown_in(s, ShutdownPhase::CheckingDataDir),
        EffectView::CheckPath(s.config.data_dir@),
        ),
        s.config.temporary && o != OutcomeView::Exists(true) ==> shutdown_next(
            shutdown_begin(s, ShutdownKind::Stop).0,
            o,
        ) == (s, EffectView::Finish(Ok(()))),
{
}

/// Dropping an instance after a stop runs no `pg_ctl` and kills nothing: an
/// instance that keeps its data, or whose data directory the stop removed, is
/// let go at once, with its configuration unchanged; otherwise its data
/// directory is looked for again and removed only if it has reappeared.
pub proof fn lemma_release_after_stop(s: InstanceView, o: OutcomeView)
    requires
        stopped(s),
    ensures
        !(shutdown_begin(s, ShutdownKind::Release).1 is Run),
        !s.config.temporary ==> shutdown_begin(s, ShutdownKind::Release).1 == EffectView::Finish(
            Ok(()),
        ) && shutdown_begin(s, ShutdownKind::Release).0.config == s.config
            && !shutdown_begin(s, ShutdownKind::Release).0.has_child,
        s.config.temporary ==> shutdown_begin(s, ShutdownKind::Release).1 == EffectView::CheckPath(
            s.config.data_dir@,
        ),
        s.config.temporary && o != OutcomeView::Exists(true) ==> shutdown_next(
            shutdown_begin(s, ShutdownKind::Release).0,
            o,
        ).1 == EffectView::Finish(Ok(())),
{
}

/// The data of an instance that keeps its data survives a shutdown, and a
/// start on a data directory that holds `PG_VERSION` does not run `initdb`:
/// it goes on to the configuration file.
pub proof fn lemma_restart_keeps_data(
    s: InstanceView,
    kind: ShutdownKind,
    o: OutcomeView,
    st: StartView,
)
    requires
        shutdown_inv(s),
        !s.config.temporary,
    ensures
        !(shutdown_begin(s, kind).1 is RemoveDirAll),
        !(shutdown_next(s, o).1 is RemoveDirAll),
        !shutdown_begin(s, kind).0.config.temporary,
        !shutdown_next(s, o).0.config.temporary,
        st.phase == StartPhase::CheckingInitialized ==> start_next(st, OutcomeView::Exists(true))
            == (
        start_in(st, StartPhase::ReadingConf),
        EffectView::ReadFile(data_file_of(st.config, "postgresql.conf"@)),
        ),
{
}

/// A start owns a server exactly from a successful spawn on: it succeeds
/// only with a server, a failure before the spawn leaves none, and a failure
/// after it leaves the server to be released.
pub proof fn lemma_start_spawned(s: StartView, o: OutcomeView)
    requires
        s.phase != StartPhase::Finished,
        s.spawned <==> (s.phase == StartPhase::StartingClock || s.phase
            == StartPhase::ReadingClock || s.phase == StartPhase::Connecting || s.phase
            == StartPhase::Sleeping),
    ensures
        start_next(s, o).0.phase != StartPhase::Finished ==> (start_next(s, o).0.spawned <==> (
        start_next(s, o).0.phase == StartPhase::StartingClock || start_next(s, o).0.phase
            == StartPhase::ReadingClock || start_next(s, o).0.phase == StartPhase::Connecting
            || start_next(s, o).0.phase == StartPhase::Sleeping)),
        start_next(s, o).1 == EffectView::Finish(Ok(())) ==> start_next(s, o).0.spawned,
        start_next(s, o).1 is Finish ==> (start_next(s, o).0.spawned <==> s.spawned),
        start_next(s, o).0.spawned ==> s.spawned || (s.phase == StartPhase::Spawning && o
            == OutcomeView::Done),
{
}

} // verus!

verus! {

/// A shutdown of a temporary instance, a stop or a release alike, removes
/// the data directory whenever it is reported to exist, and does not finish
/// before it has looked for it; a shutdown of an instance that keeps its data
/// neither looks for nor removes it.
pub proof fn lemma_temporary_data_removed(s: InstanceView, kind: ShutdownKind, o: OutcomeView)
    requires
        shutdown_inv(s),
    ensures
        s.phase == ShutdownPhase::CheckingDataDir && o == OutcomeView::Exists(true)
            ==> shutdown_next(s, o).1 == EffectView::RemoveDirAll(s.config.data_dir@),
        s.config.temporary ==> !(shutdown_begin(s, kind).1 is Finish),
        s.config.temporary && (s.phase == ShutdownPhase::StoppingServer || s.phase
            == ShutdownPhase::Killing || s.phase == ShutdownPhase::Reaping || s.phase
            == ShutdownPhase::Forgetting) ==> !(shutdown_next(s, o).1 is Finish),
        s.config.temporary && (s.phase == ShutdownPhase::StoppingServer || s.phase
            == ShutdownPhase::Killing || s.phase == ShutdownPhase::Reaping || s.phase
            == ShutdownPhase::Forgetting) && shutdown_next(s, o).0.phase
            == ShutdownPhase::CheckingDataDir ==> shutdown_next(s, o).1 == EffectView::CheckPath(
            s.config.data_dir@,
        ),
        !s.config.temporary ==> !(shutdown_begin(s, kind).1 is CheckPath) && !(shutdown_next(
            s,
            o,
        ).1 is CheckPath) && !(shutdown_next(s, o).1 is RemoveDirAll),
{
}

} // verus!

verus! {

/// The programs a start runs, and how: `initdb` from the engine's `bin`
/// directory with trust authentication, UTF-8, the configured superuser and
/// data directory; the server from the same directory on the data
/// directory; connections only to the configured host and port; and the
/// configuration files only inside the data directory.
pub proof fn lemma_start_programs(s: StartView, o: OutcomeView)
    requires
        s.phase != StartPhase::Extracting,
    ensures
        start_next(s, o).1 matches EffectView::Run(p, args, tz) ==> p == join_path(
            join_path(join_path(s.config.cache_dir@, engine_name(s.config.engine)), "bin"@),
            "initdb"@,
        ) && args == seq![
            "--auth=trust"@,
            "--encoding=UTF8"@,
            "-U"@,
            s.config.username@,
            "-D"@,
            s.config.data_dir@,
        ] && tz,
        start_next(s, o).1 matches EffectView::Spawn(p, args) ==> p == join_path(
            join_path(join_path(s.config.cache_dir@, engine_name(s.config.engine)), "bin"@),
            "postgres"@,
        ) && args == seq!["-D"@, s.config.data_dir@],
        start_next(s, o).1 matches EffectView::Connect(h, p) ==> h == s.config.host@ && p
            == s.config.port,
        start_next(s, o).1 matches EffectView::WriteFile(p, _) ==> p == join_path(
            s.config.data_dir@,
            "postgresql.conf"@,
        ) || p == join_path(s.config.data_dir@, "pg_hba.conf"@),
        start_next(s, o).1 matches EffectView::WriteFile(p, content) ==> p == join_path(
            s.config.data_dir@,
            "postgresql.conf"@,
        ) ==> s.phase == StartPhase::ReadingConf && content == rewrite_conf(
            match o {
                OutcomeView::Content(Some(text)) => text,
                _ => Seq::empty(),
            },
            managed_settings_of(s.config),
        ),
{
    reveal_strlit("postgresql.conf");
    reveal_strlit("pg_hba.conf");
    assert("postgresql.conf"@ != "pg_hba.conf"@) by {
        assert("postgresql.conf"@.len() != "pg_hba.conf"@.len());
    }
    let d = s.config.data_dir@;
    if d.len() > 0 && d.last() != '/' {
        assert((d + seq!['/'] + "postgresql.conf"@).len() != (d + seq!['/'] + "pg_hba.conf"@).len());
    } else {
        assert((d + "postgresql.conf"@).len() != (d + "pg_hba.conf"@).len());
    }
}

/// A shutdown stops the server with a fast `pg_ctl stop` from the engine's
/// `bin` directory, on the data directory, waiting for it; it removes no
/// directory but the data directory.
pub proof fn lemma_shutdown_programs(s: InstanceView, kind: ShutdownKind, o: OutcomeView)
    ensures
        shutdown_begin(s, kind).1 matches EffectView::Run(p, args, tz) ==> p == join_path(
            join_path(join_path(s.config.cache_dir@, engine_name(s.config.engine)), "bin"@),
            "pg_ctl"@,
        ) && args == seq!["stop"@, "-D"@, s.config.data_dir@, "-m"@, "fast"@, "-w"@] && !tz,
        s.has_child ==> shutdown_begin(s, kind).1 is Run,
        !(shutdown_next(s, o).1 is Run),
        shutdown_next(s, o).1 matches EffectView::RemoveDirAll(p) ==> p == s.config.data_dir@,
{
}

} // verus!
