use vstd::prelude::*;
use vstd::string::*;
use crate::config::{release_name, install_dir_of, Config, Engine};
use crate::effects::{Effect, EffectView, Outcome, OutcomeView, failure_message, failure_text};
use crate::error::{Error, ErrorView};
use crate::text::{cat2, cat3, cat4, decimal, join_path, path_join, push_decimal};

verus! {

/// The file whose presence marks a completely extracted payload.
pub const MARKER_FILE: &'static str = ".extracted";

/// Where the release archives are downloaded from, unless overridden.
pub const DEFAULT_DOWNLOAD_BASE: &'static str = "https://github.com/oonid/postg-rs/releases/download/v0.1.0";

/// The PostgreSQL major version that is downloaded.
pub const PG_MAJOR: u32 = 17;

/// The marker file of a configuration's install directory.
pub open spec fn marker_path_of(c: Config) -> Seq<char> {
    join_path(install_dir_of(c), MARKER_FILE@)
}

/// The path of the marker file that shows the payload is extracted.
pub fn marker_path(config: &Config) -> (p: String)
    ensures
        p@ == marker_path_of(*config),
{
    let dir = config.install_dir();
    path_join(dir.as_str(), MARKER_FILE)
}

/// `<arch>-unknown-<os>-gnu`
pub open spec fn release_target_of(arch: Seq<char>, os: Seq<char>) -> Seq<char> {
    arch + "-unknown-"@ + os + "-gnu"@
}

/// `<engine>-<major>-<target>.tar.gz`
pub open spec fn release_file_name_of(engine: Engine, major: u32, target: Seq<char>) -> Seq<char> {
    release_name(engine) + "-"@ + decimal(major as nat) + "-"@ + target + ".tar.gz"@
}

/// `<base>/<file name>`
pub open spec fn download_url_of(base: Seq<char>, file_name: Seq<char>) -> Seq<char> {
    base + "/"@ + file_name
}

/// The platform triple that release archives are built for.
pub fn release_target(arch: &str, os: &str) -> (t: String)
    ensures
        t@ == release_target_of(arch@, os@),
{
    cat4(arch, "-unknown-", os, "-gnu")
}

/// The name of the release archive of an engine.
pub fn release_file_name(engine: Engine, major: u32, target: &str) -> (n: String)
    ensures
        n@ == release_file_name_of(engine, major, target@),
{
    let mut n = engine.release_name();
    n.append("-");
    push_decimal(&mut n, major as u64);
    n.append("-");
    n.append(target);
    n.append(".tar.gz");
    n
}

/// The download base: the override when one is set, otherwise the project's releases.
pub open spec fn download_base_of(override_base: Option<Seq<char>>) -> Seq<char> {
    match override_base {
        Some(b) => b,
        None => DEFAULT_DOWNLOAD_BASE@,
    }
}

/// The URL of a release archive.
pub fn download_url(base: &str, file_name: &str) -> (u: String)
    ensures
        u@ == download_url_of(base@, file_name@),
{
    cat3(base, "/", file_name)
}

/// Whether an HTTP status code is a success (200 to 299).
pub open spec fn http_success(code: u16) -> bool {
    200 <= code <= 299
}

/// Where the extraction of a payload stands: which effect it waits on.
#[derive(Debug)]
pub enum ExtractPhase {
    CheckInstalled,
    CreateCache,
    RecheckInstalled,
    CheckCachedArchive,
    Fetching,
    CreatingFile,
    Copying,
    MakingTemp,
    /// Opening the archive; the fresh directory.
    Opening(String),
    Unpacking(String),
    WritingMarker(String),
    CheckInstallDir(String),
    RemovingInstall(String),
    Renaming(String),
    Keeping,
    Finished,
}

pub enum ExtractPhaseView {
    CheckInstalled,
    CreateCache,
    RecheckInstalled,
    CheckCachedArchive,
    Fetching,
    CreatingFile,
    Copying,
    MakingTemp,
    Opening(Seq<char>),
    Unpacking(Seq<char>),
    WritingMarker(Seq<char>),
    CheckInstallDir(Seq<char>),
    RemovingInstall(Seq<char>),
    Renaming(Seq<char>),
    Keeping,
    Finished,
}

impl View for ExtractPhase {
    type V = ExtractPhaseView;

    open spec fn view(&self) -> ExtractPhaseView {
        match self {
            ExtractPhase::CheckInstalled => ExtractPhaseView::CheckInstalled,
            ExtractPhase::CreateCache => ExtractPhaseView::CreateCache,
            ExtractPhase::RecheckInstalled => ExtractPhaseView::RecheckInstalled,
            ExtractPhase::CheckCachedArchive => ExtractPhaseView::CheckCachedArchive,
            ExtractPhase::Fetching => ExtractPhaseView::Fetching,
            ExtractPhase::CreatingFile => ExtractPhaseView::CreatingFile,
            ExtractPhase::Copying => ExtractPhaseView::Copying,
            ExtractPhase::MakingTemp => ExtractPhaseView::MakingTemp,
            ExtractPhase::Opening(t) => ExtractPhaseView::Opening(t@),
            ExtractPhase::Unpacking(t) => ExtractPhaseView::Unpacking(t@),
            ExtractPhase::WritingMarker(t) => ExtractPhaseView::WritingMarker(t@),
            ExtractPhase::CheckInstallDir(t) => ExtractPhaseView::CheckInstallDir(t@),
            ExtractPhase::RemovingInstall(t) => ExtractPhaseView::RemovingInstall(t@),
            ExtractPhase::Renaming(t) => ExtractPhaseView::Renaming(t@),
            ExtractPhase::Keeping => ExtractPhaseView::Keeping,
            ExtractPhase::Finished => ExtractPhaseView::Finished,
        }
    }
}

/// The extraction of an engine's binaries into the cache: unless the marker
/// shows they are there already, the archive (given, cached, or downloaded
/// into the cache) is unpacked into a fresh directory beside the install
/// directory, the marker is written into it, and it is renamed into place.
pub struct Extraction {
    install_dir: String,
    cache_dir: String,
    given_archive: Option<String>,
    local_archive: String,
    url: String,
    phase: ExtractPhase,
}

pub struct ExtractionView {
    pub install_dir: Seq<char>,
    pub cache_dir: Seq<char>,
    pub given_archive: Option<Seq<char>>,
    pub local_archive: Seq<char>,
    pub url: Seq<char>,
    pub phase: ExtractPhaseView,
}

impl View for Extraction {
    type V = ExtractionView;

    closed spec fn view(&self) -> ExtractionView {
        ExtractionView {
            install_dir: self.install_dir@,
            cache_dir: self.cache_dir@,
            given_archive: match self.given_archive {
                Some(a) => Some(a@),
                None => None,
            },
            local_archive: self.local_archive@,
            url: self.url@,
            phase: self.phase@,
        }
    }
}

/// A new extraction for a configuration: the given archive, or else the
/// release archive of the configuration's engine for the platform, found in
/// the cache directory or downloaded from the base URL.
pub open spec fn extraction_of(
    c: Config,
    given_archive: Option<Seq<char>>,
    arch: Seq<char>,
    os: Seq<char>,
    download_base: Option<Seq<char>>,
) -> ExtractionView {
    let file_name = release_file_name_of(c.engine, PG_MAJOR, release_target_of(arch, os));
    ExtractionView {
        install_dir: install_dir_of(c),
        cache_dir: c.cache_dir@,
        given_archive,
        local_archive: join_path(c.cache_dir@, file_name),
        url: download_url_of(download_base_of(download_base), file_name),
        phase: ExtractPhaseView::CheckInstalled,
    }
}

/// The archive that is unpacked: the given one, or the one in the cache.
pub open spec fn archive_of(s: ExtractionView) -> Seq<char> {
    match s.given_archive {
        Some(a) => a,
        None => s.local_archive,
    }
}

/// The marker path of an extraction.
pub open spec fn extraction_marker(s: ExtractionView) -> Seq<char> {
    join_path(s.install_dir, MARKER_FILE@)
}

pub open spec fn extract_failed(m: Seq<char>) -> EffectView {
    EffectView::Finish(Err(ErrorView::Extract(m)))
}

pub open spec fn with_phase(s: ExtractionView, p: ExtractPhaseView) -> ExtractionView {
    ExtractionView { phase: p, ..s }
}

/// The next state and effect of an extraction, given what the last effect gave.
pub open spec fn extract_next(s: ExtractionView, o: OutcomeView) -> (ExtractionView, EffectView) {
    let finished = with_phase(s, ExtractPhaseView::Finished);
    match s.phase {
        ExtractPhaseView::CheckInstalled => if o == OutcomeView::Exists(true) {
            (finished, EffectView::Finish(Ok(())))
        } else {
            (with_phase(s, ExtractPhaseView::CreateCache), EffectView::CreateDirAll(s.cache_dir))
        },
        ExtractPhaseView::CreateCache => if o == OutcomeView::Done {
            (
                with_phase(s, ExtractPhaseView::RecheckInstalled),
                EffectView::CheckPath(extraction_marker(s)),
            )
        } else {
            (
                finished,
                extract_failed(
                    "failed to create cache dir "@ + s.cache_dir + ": "@ + failure_text(o),
                ),
            )
        },
        ExtractPhaseView::RecheckInstalled => if o == OutcomeView::Exists(true) {
            (finished, EffectView::Finish(Ok(())))
        } else if s.given_archive is Some {
            (
                with_phase(s, ExtractPhaseView::MakingTemp),
                EffectView::MakeTempDir(s.cache_dir, ".extract-"@),
            )
        } else {
            (
                with_phase(s, ExtractPhaseView::CheckCachedArchive),
                EffectView::CheckPath(s.local_archive),
            )
        },
        ExtractPhaseView::CheckCachedArchive => if o == OutcomeView::Exists(true) {
            (
                with_phase(s, ExtractPhaseView::MakingTemp),
                EffectView::MakeTempDir(s.cache_dir, ".extract-"@),
            )
        } else {
            (with_phase(s, ExtractPhaseView::Fetching), EffectView::Fetch(s.url))
        },
        ExtractPhaseView::Fetching => match o {
            OutcomeView::Fetched(code, text) => if http_success(code) {
                (
                    with_phase(s, ExtractPhaseView::CreatingFile),
                    EffectView::CreateFile(s.local_archive),
                )
            } else {
                (
                    finished,
                    extract_failed("failed to download "@ + s.url + ": HTTP "@ + text),
                )
            },
            _ => (
                finished,
                extract_failed("failed to download "@ + s.url + ": "@ + failure_text(o)),
            ),
        },
        ExtractPhaseView::CreatingFile => if o == OutcomeView::Done {
            (with_phase(s, ExtractPhaseView::Copying), EffectView::CopyBody)
        } else {
            (
                finished,
                extract_failed(
                    "failed to create cache file "@ + s.local_archive + ": "@ + failure_text(o),
                ),
            )
        },
        ExtractPhaseView::Copying => if o == OutcomeView::Done {
            (
                with_phase(s, ExtractPhaseView::MakingTemp),
                EffectView::MakeTempDir(s.cache_dir, ".extract-"@),
            )
        } else {
            (
                finished,
                extract_failed(
                    "failed to write cache file "@ + s.local_archive + ": "@ + failure_text(o),
                ),
            )
        },
        ExtractPhaseView::MakingTemp => match o {
            OutcomeView::TempDir(t) => (
                with_phase(s, ExtractPhaseView::Opening(t)),
                EffectView::OpenArchive(archive_of(s)),
            ),
            _ => (
                finished,
                extract_failed("failed to create temp extraction dir: "@ + failure_text(o)),
            ),
        },
        ExtractPhaseView::Opening(t) => if o == OutcomeView::Done {
            (with_phase(s, ExtractPhaseView::Unpacking(t)), EffectView::Unpack(t))
        } else {
            (
                finished,
                extract_failed("failed to open "@ + archive_of(s) + ": "@ + failure_text(o)),
            )
        },
        ExtractPhaseView::Unpacking(t) => if o == OutcomeView::Done {
            (
                with_phase(s, ExtractPhaseView::WritingMarker(t)),
                EffectView::WriteFile(join_path(t, MARKER_FILE@), Seq::empty()),
            )
        } else {
            (finished, extract_failed("failed to unpack archive: "@ + failure_text(o)))
        },
        ExtractPhaseView::WritingMarker(t) => if o == OutcomeView::Done {
            (
                with_phase(s, ExtractPhaseView::CheckInstallDir(t)),
                EffectView::CheckPath(s.install_dir),
            )
        } else {
            (finished, extract_failed("failed to write marker: "@ + failure_text(o)))
        },
        ExtractPhaseView::CheckInstallDir(t) => if o == OutcomeView::Exists(true) {
            (
                with_phase(s, ExtractPhaseView::RemovingInstall(t)),
                EffectView::RemoveDirAll(s.install_dir),
            )
        } else {
            (with_phase(s, ExtractPhaseView::Renaming(t)), EffectView::Rename(t, s.install_dir))
        },
        ExtractPhaseView::RemovingInstall(t) => (
            with_phase(s, ExtractPhaseView::Renaming(t)),
            EffectView::Rename(t, s.install_dir),
        ),
        ExtractPhaseView::Renaming(t) => if o == OutcomeView::Done {
            (with_phase(s, ExtractPhaseView::Keeping), EffectView::KeepTempDir)
        } else {
            (
                finished,
                extract_failed(
                    "failed to move extracted payload from "@ + t + " to "@ + s.install_dir
                        + ": "@ + failure_text(o),
                ),
            )
        },
        ExtractPhaseView::Keeping => (finished, EffectView::Finish(Ok(()))),
        ExtractPhaseView::Finished => (finished, EffectView::Finish(Ok(()))),
    }
}

} // verus!

verus! {

impl Extraction {
    /// Starts the extraction of a configuration's engine: the archive given,
    /// or else the release archive for the platform, looked up in the cache
    /// and downloaded from `download_base` (the project's releases when
    /// `None`). Returns the extraction and its first effect, which checks for
    /// the marker.
    pub fn new(
        config: &Config,
        archive_path: Option<String>,
        arch: &str,
        os: &str,
        download_base: Option<String>,
    ) -> (r: (Extraction, Effect))
        ensures
            r.0@ == extraction_of(
                *config,
                match archive_path {
                    Some(a) => Some(a@),
                    None => None,
                },
                arch@,
                os@,
                match download_base {
                    Some(b) => Some(b@),
                    None => None,
                },
            ),
            r.1@ == EffectView::CheckPath(marker_path_of(*config)),
    {
        let target = release_target(arch, os);
        let file_name = release_file_name(config.engine, PG_MAJOR, target.as_str());
        let base = match download_base {
            Some(b) => b,
            None => String::from_str(DEFAULT_DOWNLOAD_BASE),
        };
        let url = download_url(base.as_str(), file_name.as_str());
        let local_archive = path_join(config.cache_dir.as_str(), file_name.as_str());
        let install_dir = config.install_dir();
        let marker = marker_path(config);
        let e = Extraction {
            install_dir,
            cache_dir: config.cache_dir.clone(),
            given_archive: archive_path,
            local_archive,
            url,
            phase: ExtractPhase::CheckInstalled,
        };
        (e, Effect::CheckPath(marker))
    }

    /// Whether the extraction is over.
    pub fn is_finished(&self) -> (b: bool)
        ensures
            b == (self@.phase is Finished),
    {
        match self.phase {
            ExtractPhase::Finished => true,
            _ => false,
        }
    }

    fn extract_error(m: String) -> (e: Effect)
        ensures
            e@ == extract_failed(m@),
    {
        Effect::Finish(Err(Error::Extract(m)))
    }

    fn archive(&self) -> (a: String)
        ensures
            a@ == archive_of(self@),
    {
        match &self.given_archive {
            Some(a) => a.clone(),
            None => self.local_archive.clone(),
        }
    }

    fn make_temp(&self) -> (e: Effect)
        ensures
            e@ == EffectView::MakeTempDir(self@.cache_dir, ".extract-"@),
    {
        Effect::MakeTempDir(self.cache_dir.clone(), String::from_str(".extract-"))
    }

    /// Takes in what the last effect gave and returns the next effect.
    pub fn step(&mut self, o: &Outcome) -> (e: Effect)
        ensures
            (final(self)@, e@) == extract_next(old(self)@, o@),
    {
        let failure = failure_message(o);
        match &self.phase {
            ExtractPhase::CheckInstalled => match o {
                Outcome::Exists(true) => {
                    self.phase = ExtractPhase::Finished;
                    Effect::Finish(Ok(()))
                },
                _ => {
                    self.phase = ExtractPhase::CreateCache;
                    Effect::CreateDirAll(self.cache_dir.clone())
                },
            },
            ExtractPhase::CreateCache => match o {
                Outcome::Done => {
                    self.phase = ExtractPhase::RecheckInstalled;
                    Effect::CheckPath(path_join(self.install_dir.as_str(), MARKER_FILE))
                },
                _ => {
                    self.phase = ExtractPhase::Finished;
                    Self::extract_error(
                        cat4(
                            "failed to create cache dir ",
                            self.cache_dir.as_str(),
                            ": ",
                            failure.as_str(),
                        ),
                    )
                },
            },
            ExtractPhase::RecheckInstalled => match o {
                Outcome::Exists(true) => {
                    self.phase = ExtractPhase::Finished;
                    Effect::Finish(Ok(()))
                },
                _ => {
                    if self.given_archive.is_some() {
                        self.phase = ExtractPhase::MakingTemp;
                        self.make_temp()
                    } else {
                        self.phase = ExtractPhase::CheckCachedArchive;
                        Effect::CheckPath(self.local_archive.clone())
                    }
                },
            },
            ExtractPhase::CheckCachedArchive => match o {
                Outcome::Exists(true) => {
                    self.phase = ExtractPhase::MakingTemp;
                    self.make_temp()
                },
                _ => {
                    self.phase = ExtractPhase::Fetching;
                    Effect::Fetch(self.url.clone())
                },
            },
            ExtractPhase::Fetching => match o {
                Outcome::Fetched(code, text) => {
                    if 200 <= *code && *code <= 299 {
                        self.phase = ExtractPhase::CreatingFile;
                        Effect::CreateFile(self.local_archive.clone())
                    } else {
                        self.phase = ExtractPhase::Finished;
                        Self::extract_error(
                            cat4("failed to download ", self.url.as_str(), ": HTTP ", text.as_str()),
                        )
                    }
                },
                _ => {
                    self.phase = ExtractPhase::Finished;
                    Self::extract_error(
                        cat4("failed to download ", self.url.as_str(), ": ", failure.as_str()),
                    )
                },
            },
            ExtractPhase::CreatingFile => match o {
                Outcome::Done => {
                    self.phase = ExtractPhase::Copying;
                    Effect::CopyBody
                },
                _ => {
                    self.phase = ExtractPhase::Finished;
                    Self::extract_error(
                        cat4(
                            "failed to create cache file ",
                            self.local_archive.as_str(),
                            ": ",
                            failure.as_str(),
                        ),
                    )
                },
            },
            ExtractPhase::Copying => match o {
                Outcome::Done => {
                    self.phase = ExtractPhase::MakingTemp;
                    self.make_temp()
                },
                _ => {
                    self.phase = ExtractPhase::Finished;
                    Self::extract_error(
                        cat4(
                            "failed to write cache file ",
                            self.local_archive.as_str(),
                            ": ",
                            failure.as_str(),
                        ),
                    )
                },
            },
            ExtractPhase::MakingTemp => match o {
                Outcome::TempDir(t) => {
                    self.phase = ExtractPhase::Opening(t.clone());
                    Effect::OpenArchive(self.archive())
                },
                _ => {
                    self.phase = ExtractPhase::Finished;
                    Self::extract_error(
                        cat2("failed to create temp extraction dir: ", failure.as_str()),
                    )
                },
            },
            ExtractPhase::Opening(t) => match o {
                Outcome::Done => {
                    let t = t.clone();
                    self.phase = ExtractPhase::Unpacking(t.clone());
                    Effect::Unpack(t)
                },
                _ => {
                    let a = self.archive();
                    self.phase = ExtractPhase::Finished;
                    Self::extract_error(cat4("failed to open ", a.as_str(), ": ", failure.as_str()))
                },
            },
            ExtractPhase::Unpacking(t) => match o {
                Outcome::Done => {
                    let t = t.clone();
                    let marker = path_join(t.as_str(), MARKER_FILE);
                    self.phase = ExtractPhase::WritingMarker(t);
                    Effect::WriteFile(marker, String::new())
                },
                _ => {
                    self.phase = ExtractPhase::Finished;
                    Self::extract_error(cat2("failed to unpack archive: ", failure.as_str()))
                },
            },
            ExtractPhase::WritingMarker(t) => match o {
                Outcome::Done => {
                    self.phase = ExtractPhase::CheckInstallDir(t.clone());
                    Effect::CheckPath(self.install_dir.clone())
                },
                _ => {
                    self.phase = ExtractPhase::Finished;
                    Self::extract_error(cat2("failed to write marker: ", failure.as_str()))
                },
            },
            ExtractPhase::CheckInstallDir(t) => match o {
                Outcome::Exists(true) => {
                    self.phase = ExtractPhase::RemovingInstall(t.clone());
                    Effect::RemoveDirAll(self.install_dir.clone())
                },
                _ => {
                    let t = t.clone();
                    self.phase = ExtractPhase::Renaming(t.clone());
                    Effect::Rename(t, self.install_dir.clone())
                },
            },
            ExtractPhase::RemovingInstall(t) => {
                let t = t.clone();
                self.phase = ExtractPhase::Renaming(t.clone());
                Effect::Rename(t, self.install_dir.clone())
            },
            ExtractPhase::Renaming(t) => match o {
                Outcome::Done => {
                    self.phase = ExtractPhase::Keeping;
                    Effect::KeepTempDir
                },
                _ => {
                    let mut m = cat4(
                        "failed to move extracted payload from ",
                        t.as_str(),
                        " to ",
                        self.install_dir.as_str(),
                    );
                    m.append(": ");
                    m.append(failure.as_str());
                    self.phase = ExtractPhase::Finished;
                    Self::extract_error(m)
                },
            },
            ExtractPhase::Keeping => {
                self.phase = ExtractPhase::Finished;
                Effect::Finish(Ok(()))
            },
            ExtractPhase::Finished => Effect::Finish(Ok(())),
        }
    }
}

} // verus!

verus! {

/// Whether the extraction is past writing the marker into the unpacked payload.
pub open spec fn payload_ready(p: ExtractPhaseView) -> bool {
    p is CheckInstallDir || p is RemovingInstall || p is Renaming || p is Keeping
}

/// A step changes nothing but the phase of an extraction.
pub proof fn lemma_extract_step_keeps_paths(s: ExtractionView, o: OutcomeView)
    ensures
        extract_next(s, o).0 == with_phase(s, extract_next(s, o).0.phase),
{
}

/// The install directory is removed or renamed into only once the archive
/// has been unpacked into the fresh directory and the marker written there;
/// and the extraction gets that far only through a successful marker write.
pub proof fn lemma_install_dir_replaced_only_when_ready(s: ExtractionView, o: OutcomeView)
    ensures
        extract_next(s, o).1 is RemoveDirAll ==> payload_ready(s.phase),
        extract_next(s, o).1 is Rename ==> payload_ready(s.phase),
        payload_ready(extract_next(s, o).0.phase) && !payload_ready(s.phase) ==> s.phase is WritingMarker
            && o == OutcomeView::Done,
{
}

/// Nothing is downloaded unless no archive was given and none is in the
/// cache, and a payload that is already extracted is left as it is.
pub proof fn lemma_download_only_when_missing(s: ExtractionView, o: OutcomeView)
    ensures
        extract_next(s, o).1 is Fetch ==> s.phase is CheckCachedArchive && o
            != OutcomeView::Exists(true),
        extract_next(s, o).0.phase is CheckCachedArchive && !(s.phase is CheckCachedArchive)
            ==> s.given_archive is None,
        (s.phase is CheckInstalled || s.phase is RecheckInstalled) && o == OutcomeView::Exists(
            true,
        ) ==> extract_next(s, o).1 == EffectView::Finish(Ok(())),
{
}

} // verus!

verus! {

/// Once the marker is written into the fresh directory `t`, the extraction
/// moves `t` onto the install directory: at once when there is no install
/// directory, and right after removing it when there is one. It does not
/// keep the fresh directory or finish in between.
pub proof fn lemma_marked_payload_is_renamed_into_place(
    s: ExtractionView,
    t: Seq<char>,
    o1: OutcomeView,
    o2: OutcomeView,
)
    requires
        s.phase == ExtractPhaseView::CheckInstallDir(t),
    ensures
        o1 != OutcomeView::Exists(true) ==> extract_next(s, o1).1 == EffectView::Rename(
            t,
            s.install_dir,
        ),
        o1 == OutcomeView::Exists(true) ==> extract_next(s, o1).1 == EffectView::RemoveDirAll(
            s.install_dir,
        ) && extract_next(extract_next(s, o1).0, o2).1 == EffectView::Rename(t, s.install_dir),
{
}

/// The fresh directory is kept only once it was renamed onto the install
/// directory: an extraction waits on a rename exactly after asking for
/// `Rename(t, install_dir)`, and it keeps the directory only after that
/// rename succeeded. An extraction that unpacked an archive succeeds only
/// after keeping it.
pub proof fn lemma_kept_only_after_rename(s: ExtractionView, o: OutcomeView)
    ensures
        extract_next(s, o).0.phase matches ExtractPhaseView::Renaming(t) ==> !(s.phase
            is Renaming) ==> extract_next(s, o).1 == EffectView::Rename(t, s.install_dir),
        extract_next(s, o).1 == EffectView::KeepTempDir ==> s.phase is Renaming && o
            == OutcomeView::Done,
        extract_next(s, o).1 == EffectView::Finish(Ok(())) ==> (s.phase is CheckInstalled
            || s.phase is RecheckInstalled) && o == OutcomeView::Exists(true) || s.phase
            is Keeping || s.phase is Finished,
{
}

} // verus!

verus! {

/// What an extraction unpacks and where: the archive given, or else the
/// one in the cache; into the fresh directory it was given; and the marker
/// goes into that directory, not into the install directory.
pub proof fn lemma_extract_targets(s: ExtractionView, o: OutcomeView)
    ensures
        extract_next(s, o).1 matches EffectView::OpenArchive(a) ==> a == match s.given_archive {
            Some(g) => g,
            None => s.local_archive,
        } && o is TempDir && extract_next(s, o).0.phase == ExtractPhaseView::Opening(o->TempDir_0),
        extract_next(s, o).1 matches EffectView::Unpack(t) ==> s.phase
            == ExtractPhaseView::Opening(t),
        extract_next(s, o).1 matches EffectView::WriteFile(p, content) ==> s.phase
            == ExtractPhaseView::Unpacking(s.phase->Unpacking_0) && p == join_path(
            s.phase->Unpacking_0,
            ".extracted"@,
        ) && content.len() == 0,
        extract_next(s, o).1 matches EffectView::Fetch(u) ==> u == s.url,
        extract_next(s, o).1 matches EffectView::CreateFile(f) ==> f == s.local_archive,
{
}

} // verus!
