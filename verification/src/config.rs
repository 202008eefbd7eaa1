use vstd::prelude::*;
use vstd::string::*;
use crate::text::{decimal, join_path, path_join, push_decimal};

verus! {

/// A PostgreSQL distribution that can be downloaded and run.
#[derive(Debug, Clone, Copy, PartialEq, Eq, Structural)]
pub enum Engine {
    /// The official PGDG binaries.
    Vanilla,
    /// The official binaries without the LLVM JIT.
    PostgresqlWithoutLlvm,
    /// pgEdge Spock, for multi-master replication.
    Spock,
    /// The official binaries with the pgvector extension.
    PostgresqlPgvector,
}

/// The name of an engine, as it is printed and as its install directory is named.
pub open spec fn engine_name(e: Engine) -> Seq<char> {
    match e {
        Engine::Vanilla => "vanilla"@,
        Engine::PostgresqlWithoutLlvm => "postgresql-without-llvm"@,
        Engine::Spock => "spock"@,
        Engine::PostgresqlPgvector => "postgresql-pgvector"@,
    }
}

/// The name under which an engine's binaries are published as release archives.
pub open spec fn release_name(e: Engine) -> Seq<char> {
    match e {
        Engine::Vanilla => "postgresql"@,
        Engine::PostgresqlWithoutLlvm => "postgresql-without-llvm"@,
        Engine::Spock => "postgresql-spock"@,
        Engine::PostgresqlPgvector => "postgresql-pgvector"@,
    }
}

impl Engine {
    /// The engine's name.
    pub fn to_string(&self) -> (s: String)
        ensures
            s@ == engine_name(*self),
    {
        match self {
            Engine::Vanilla => String::from_str("vanilla"),
            Engine::PostgresqlWithoutLlvm => String::from_str("postgresql-without-llvm"),
            Engine::Spock => String::from_str("spock"),
            Engine::PostgresqlPgvector => String::from_str("postgresql-pgvector"),
        }
    }

    /// The engine's name in release archives.
    pub fn release_name(&self) -> (s: String)
        ensures
            s@ == release_name(*self),
    {
        match self {
            Engine::Vanilla => String::from_str("postgresql"),
            Engine::PostgresqlWithoutLlvm => String::from_str("postgresql-without-llvm"),
            Engine::Spock => String::from_str("postgresql-spock"),
            Engine::PostgresqlPgvector => String::from_str("postgresql-pgvector"),
        }
    }
}

/// Where and how an embedded PostgreSQL instance runs.
#[derive(Debug, Clone)]
pub struct Config {
    pub engine: Engine,
    pub data_dir: String,
    pub port: u16,
    pub host: String,
    pub username: String,
    pub database: String,
    pub temporary: bool,
    pub cache_dir: String,
}

/// `postgresql://user@host:port/database`
pub open spec fn connection_string_of(c: Config) -> Seq<char> {
    "postgresql://"@ + c.username@ + "@"@ + c.host@ + ":"@ + decimal(c.port as nat) + "/"@
        + c.database@
}

/// `<cache_dir>/<engine name>`
pub open spec fn install_dir_of(c: Config) -> Seq<char> {
    join_path(c.cache_dir@, engine_name(c.engine))
}

/// `<install_dir>/bin/<name>`
pub open spec fn pg_bin_of(c: Config, name: Seq<char>) -> Seq<char> {
    join_path(join_path(install_dir_of(c), "bin"@), name)
}

/// The directory a process with the given id uses for its temporary data.
pub open spec fn default_data_dir(temp_dir: Seq<char>, pid: u32) -> Seq<char> {
    join_path(temp_dir, "postg-"@ + decimal(pid as nat))
}

/// `<home>/.cache/postg`, falling back to the temporary directory without a home.
pub open spec fn default_cache_dir(home: Option<Seq<char>>, temp_dir: Seq<char>) -> Seq<char> {
    let base = match home {
        Some(h) => h,
        None => temp_dir,
    };
    join_path(join_path(base, ".cache"@), "postg"@)
}

impl Config {
    /// The default configuration for a process, given its home directory (if any),
    /// the system temporary directory and its process id: the standard engine,
    /// an ephemeral port on localhost, user and database `postgres`, a temporary
    /// data directory and the per-user binary cache.
    pub fn default_with(home: Option<String>, temp_dir: String, pid: u32) -> (c: Config)
        ensures
            c.engine == Engine::Vanilla,
            c.data_dir@ == default_data_dir(temp_dir@, pid),
            c.port == 0,
            c.host@ == "127.0.0.1"@,
            c.username@ == "postgres"@,
            c.database@ == "postgres"@,
            c.temporary,
            c.cache_dir@ == default_cache_dir(
                match home {
                    Some(h) => Some(h@),
                    None => None,
                },
                temp_dir@,
            ),
    {
        let mut dir_name = String::from_str("postg-");
        push_decimal(&mut dir_name, pid as u64);
        let data_dir = path_join(temp_dir.as_str(), dir_name.as_str());
        let base = match home {
            Some(h) => h,
            None => temp_dir,
        };
        let cache = path_join(base.as_str(), ".cache");
        let cache_dir = path_join(cache.as_str(), "postg");
        Config {
            engine: Engine::Vanilla,
            data_dir,
            port: 0,
            host: String::from_str("127.0.0.1"),
            username: String::from_str("postgres"),
            database: String::from_str("postgres"),
            temporary: true,
            cache_dir,
        }
    }

    /// The URL that clients connect with.
    pub fn connection_string(&self) -> (s: String)
        ensures
            s@ == connection_string_of(*self),
    {
        let mut s = String::from_str("postgresql://");
        s.append(self.username.as_str());
        s.append("@");
        s.append(self.host.as_str());
        s.append(":");
        push_decimal(&mut s, self.port as u64);
        s.append("/");
        s.append(self.database.as_str());
        s
    }

    /// The directory the engine's binaries are extracted to.
    pub fn install_dir(&self) -> (d: String)
        ensures
            d@ == install_dir_of(*self),
    {
        let name = self.engine.to_string();
        path_join(self.cache_dir.as_str(), name.as_str())
    }

    /// The path of one of the engine's programs.
    pub fn pg_bin(&self, name: &str) -> (p: String)
        ensures
            p@ == pg_bin_of(*self, name@),
    {
        let dir = self.install_dir();
        let bin = path_join(dir.as_str(), "bin");
        path_join(bin.as_str(), name)
    }
}

} // verus!

verus! {

/// Different engines never share an install directory in the same cache.
pub proof fn lemma_install_dirs_distinct(c1: Config, c2: Config)
    requires
        c1.cache_dir@ == c2.cache_dir@,
        c1.engine != c2.engine,
    ensures
        install_dir_of(c1) != install_dir_of(c2),
{
    reveal_strlit("vanilla");
    reveal_strlit("postgresql-without-llvm");
    reveal_strlit("spock");
    reveal_strlit("postgresql-pgvector");
    let n1 = engine_name(c1.engine);
    let n2 = engine_name(c2.engine);
    assert(n1.len() != n2.len());
    assert(n1[0] != '/' && n2[0] != '/');
    assert(install_dir_of(c1).len() != install_dir_of(c2).len());
}

} // verus!
