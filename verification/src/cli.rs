use vstd::prelude::*;
use vstd::string::*;
use crate::config::{release_name, Config, Engine};
use crate::effects::strings_view;
use crate::text::{cat2, eq_str};

verus! {

/// The engine chosen on the command line.
#[derive(Debug, Clone, Copy, PartialEq, Eq, Structural)]
pub enum EngineArg {
    Postgresql,
    PostgresqlWithoutLlvm,
    PostgresqlSpock,
    PostgresqlPgvector,
}

/// The replication subcommands.
#[derive(Debug, Clone, PartialEq, Eq)]
pub enum SyncCommand {
    /// Make the local database a Spock node.
    Init { node_name: String, dsn: String },
    /// Add a schema's tables to the default replication set.
    Publish { schema: String },
    /// Subscribe to a provider node.
    Subscribe { sub_name: String, provider_dsn: String },
    /// Report the state of subscriptions and replication.
    Status { json: bool },
}

/// The subcommands of the command-line tool.
#[derive(Debug, Clone, PartialEq, Eq)]
#[allow(inconsistent_fields)]
pub enum Commands {
    Start,
    Stop,
    Status,
    Query { query: String },
    Serve { port: u16 },
    Shell,
    Dump { format: String, query: Option<String>, file: Option<String> },
    Restore { format: String, table: Option<String>, create_table: bool, file: String },
    Sync { command: SyncCommand },
}

/// The parsed command line.
#[derive(Debug, Clone, PartialEq, Eq)]
pub struct Cli {
    pub engine: EngineArg,
    pub data_dir: String,
    pub port: u16,
    pub host: String,
    pub cache_dir: Option<String>,
    pub command: Commands,
}

pub open spec fn engine_of_arg(a: EngineArg) -> Engine {
    match a {
        EngineArg::Postgresql => Engine::Vanilla,
        EngineArg::PostgresqlWithoutLlvm => Engine::PostgresqlWithoutLlvm,
        EngineArg::PostgresqlSpock => Engine::Spock,
        EngineArg::PostgresqlPgvector => Engine::PostgresqlPgvector,
    }
}

impl EngineArg {
    /// The engine this choice stands for.
    pub fn engine(&self) -> (e: Engine)
        ensures
            e == engine_of_arg(*self),
    {
        match self {
            EngineArg::Postgresql => Engine::Vanilla,
            EngineArg::PostgresqlWithoutLlvm => Engine::PostgresqlWithoutLlvm,
            EngineArg::PostgresqlSpock => Engine::Spock,
            EngineArg::PostgresqlPgvector => Engine::PostgresqlPgvector,
        }
    }
}

impl Cli {
    /// The configuration the tool runs with: the defaults, with the engine,
    /// data directory, port and host of the command line, a persistent data
    /// directory, and the cache directory of the command line when given.
    pub fn config(&self, defaults: Config) -> (c: Config)
        ensures
            c.engine == engine_of_arg(self.engine),
            c.data_dir@ == self.data_dir@,
            c.port == self.port,
            c.host@ == self.host@,
            c.username == defaults.username,
            c.database == defaults.database,
            !c.temporary,
            c.cache_dir@ == match self.cache_dir {
                Some(d) => d@,
                None => defaults.cache_dir@,
            },
    {
        let cache_dir = match &self.cache_dir {
            Some(d) => d.clone(),
            None => defaults.cache_dir,
        };
        Config {
            engine: self.engine.engine(),
            data_dir: self.data_dir.clone(),
            port: self.port,
            host: self.host.clone(),
            username: defaults.username,
            database: defaults.database,
            temporary: false,
            cache_dir,
        }
    }
}

/// How a dump is taken.
#[derive(Debug, Clone, PartialEq, Eq)]
#[allow(inconsistent_fields)]
pub enum DumpPlan {
    /// `pg_dump`, to the file or to standard output.
    Sql { file: Option<String> },
    /// The rows of a query, written to a Parquet file.
    Parquet { query: String, file: String },
}

/// How a restore is done.
#[derive(Debug, Clone, PartialEq, Eq)]
pub enum RestorePlan {
    /// `psql -f` with the file.
    Sql { file: String },
    /// The rows of a Parquet file, copied into a table, created first if asked.
    Parquet { table: String, create_table: bool, file: String },
}

pub open spec fn opt_view(o: Option<String>) -> Option<Seq<char>> {
    match o {
        Some(s) => Some(s@),
        None => None,
    }
}

/// `Unsupported format: <format>. Supported formats are 'sql' and 'parquet'`
pub open spec fn unsupported_format_of(format: Seq<char>) -> Seq<char> {
    "Unsupported format: "@ + format + ". Supported formats are 'sql' and 'parquet'"@
}

fn unsupported_format(format: &str) -> (m: String)
    ensures
        m@ == unsupported_format_of(format@),
{
    cat2(cat2("Unsupported format: ", format).as_str(), ". Supported formats are 'sql' and 'parquet'")
}

/// Chooses how to dump: `sql` dumps with `pg_dump`; `parquet` needs a file
/// and then a query; any other format is refused. The error is the message
/// the tool reports.
pub fn plan_dump(format: &str, query: Option<String>, file: Option<String>) -> (r: Result<
    DumpPlan,
    String,
>)
    ensures
        format@ == "sql"@ ==> (r matches Ok(DumpPlan::Sql { file: f }) && opt_view(f) == opt_view(
            file,
        )),
        format@ == "parquet"@ ==> match (file, query) {
            (Some(f), Some(q)) => r matches Ok(DumpPlan::Parquet { query: rq, file: rf }) && rq@
                == q@ && rf@ == f@,
            (None, _) => r matches Err(m) && m@ == "--file is required for parquet format"@,
            (Some(_), None) => r matches Err(m) && m@ == "--query is required for parquet format"@,
        },
        format@ != "sql"@ && format@ != "parquet"@ ==> (r matches Err(m) && m@
            == unsupported_format_of(format@)),
{
    proof {
        reveal_strlit("sql");
        reveal_strlit("parquet");
        assert("sql"@.len() != "parquet"@.len());
    }
    if eq_str(format, "sql") {
        Ok(DumpPlan::Sql { file })
    } else if eq_str(format, "parquet") {
        match file {
            None => Err(String::from_str("--file is required for parquet format")),
            Some(f) => match query {
                None => Err(String::from_str("--query is required for parquet format")),
                Some(q) => Ok(DumpPlan::Parquet { query: q, file: f }),
            },
        }
    } else {
        Err(unsupported_format(format))
    }
}

/// Chooses how to restore: `parquet` copies the file's rows into a table,
/// which must be named; every other format runs the file with `psql`. The
/// error is the message the tool reports.
pub fn plan_restore(format: &str, table: Option<String>, create_table: bool, file: String) -> (r:
    Result<RestorePlan, String>)
    ensures
        format@ == "parquet"@ ==> match table {
            Some(t) => r matches Ok(RestorePlan::Parquet { table: rt, create_table: c, file: f })
                && rt@ == t@ && c == create_table && f@ == file@,
            None => r matches Err(m) && m@ == "--table is required for parquet format"@,
        },
        format@ != "parquet"@ ==> (r matches Ok(RestorePlan::Sql { file: f }) && f@ == file@),
{
    if eq_str(format, "parquet") {
        match table {
            None => Err(String::from_str("--table is required for parquet format")),
            Some(t) => Ok(RestorePlan::Parquet { table: t, create_table, file }),
        }
    } else {
        Ok(RestorePlan::Sql { file })
    }
}

/// The arguments of `pg_ctl stop` for the tool: fast shutdown, no waiting.
pub open spec fn cli_stop_args_of(data_dir: Seq<char>) -> Seq<Seq<char>> {
    seq!["stop"@, "-D"@, data_dir, "-m"@, "fast"@]
}

/// The arguments of `pg_ctl status`.
pub open spec fn cli_status_args_of(data_dir: Seq<char>) -> Seq<Seq<char>> {
    seq!["status"@, "-D"@, data_dir]
}

/// The arguments of `pg_dump`: the database, and the output file when given.
pub open spec fn pg_dump_args_of(conn: Seq<char>, file: Option<Seq<char>>) -> Seq<Seq<char>> {
    match file {
        Some(f) => seq!["-d"@, conn, "-f"@, f],
        None => seq!["-d"@, conn],
    }
}

/// The arguments of `psql`: the database, and a file to run when given.
pub open spec fn psql_args_of(conn: Seq<char>, file: Option<Seq<char>>) -> Seq<Seq<char>> {
    pg_dump_args_of(conn, file)
}

/// The arguments `pg_ctl` gets from the tool's `stop` command.
pub fn cli_stop_args(data_dir: &str) -> (a: Vec<String>)
    ensures
        strings_view(a@) == cli_stop_args_of(data_dir@),
{
    let a = vec![
        String::from_str("stop"),
        String::from_str("-D"),
        String::from_str(data_dir),
        String::from_str("-m"),
        String::from_str("fast"),
    ];
    assert(strings_view(a@) =~= cli_stop_args_of(data_dir@));
    a
}

/// The arguments `pg_ctl` gets from the tool's `status` command.
pub fn cli_status_args(data_dir: &str) -> (a: Vec<String>)
    ensures
        strings_view(a@) == cli_status_args_of(data_dir@),
{
    let a = vec![String::from_str("status"), String::from_str("-D"), String::from_str(data_dir)];
    assert(strings_view(a@) =~= cli_status_args_of(data_dir@));
    a
}

/// The arguments of `pg_dump` or `psql` for a database and an optional file.
pub fn client_args(conn: &str, file: Option<&str>) -> (a: Vec<String>)
    ensures
        strings_view(a@) == pg_dump_args_of(
            conn@,
            match file {
                Some(f) => Some(f@),
                None => None,
            },
        ),
{
    let mut a = vec![String::from_str("-d"), String::from_str(conn)];
    match file {
        Some(f) => {
            a.push(String::from_str("-f"));
            a.push(String::from_str(f));
        },
        None => {},
    }
    assert(strings_view(a@) =~= pg_dump_args_of(
        conn@,
        match file {
            Some(f) => Some(f@),
            None => None,
        },
    ));
    a
}

/// Creates the Spock extension.
pub const SPOCK_CREATE_EXTENSION: &'static str = "CREATE EXTENSION IF NOT EXISTS spock";

/// Creates the local Spock node; binds the node name and its DSN.
pub const SPOCK_NODE_CREATE: &'static str = "SELECT spock.node_create(node_name := $1, dsn := $2)";

/// Creates the default replication set.
pub const SPOCK_REPSET_CREATE: &'static str = "SELECT spock.repset_create('default')";

/// Adds every table of a schema to the default replication set; binds the schema.
pub const SPOCK_REPSET_ADD_ALL_TABLES: &'static str = "SELECT spock.repset_add_all_tables('default', ARRAY[$1])";

/// Subscribes to a provider; binds the subscription name and the provider's DSN.
pub const SPOCK_SUB_CREATE: &'static str = "SELECT spock.sub_create(subscription_name := $1, provider_dsn := $2)";

/// Lists subscriptions with the process serving each, if any.
pub const SUBSCRIPTIONS_QUERY: &'static str = "SELECT subname, pid FROM pg_stat_subscription";

/// Lists replication clients with their state and lag in bytes.
pub const REPLICATION_QUERY: &'static str = "SELECT application_name, state, 
                         CAST(pg_wal_lsn_diff(pg_current_wal_lsn(), replay_lsn) AS BIGINT) AS lag_bytes 
                         FROM pg_stat_replication";

} // verus!

verus! {

/// The value that names an engine choice on the command line.
pub open spec fn engine_arg_name(a: EngineArg) -> Seq<char> {
    match a {
        EngineArg::Postgresql => "postgresql"@,
        EngineArg::PostgresqlWithoutLlvm => "postgresql-without-llvm"@,
        EngineArg::PostgresqlSpock => "postgresql-spock"@,
        EngineArg::PostgresqlPgvector => "postgresql-pgvector"@,
    }
}

/// The engine chosen on the command line is the one published under the
/// name given there, so different choices give different engines.
pub proof fn lemma_engine_arg_names_engine(a: EngineArg, b: EngineArg)
    ensures
        release_name(engine_of_arg(a)) == engine_arg_name(a),
        a != b ==> engine_of_arg(a) != engine_of_arg(b),
{
}

} // verus!
