use vstd::prelude::*;
use vstd::string::{StrSliceExecFns, StringExecFns};

use crate::json::{find_member, lookup, Json};

verus! {

#[derive(Debug, Clone, Copy, PartialEq, Eq, Structural)]
pub struct MongoEngine {
    pub version: u16,
}

#[derive(Debug, Clone, Copy, PartialEq, Eq, Structural)]
pub struct PostgreSQLEngine {
    pub version: u16,
}

#[derive(Debug, Clone, Copy, PartialEq, Eq, Structural)]
pub struct MySQLEngine {
    pub version: u16,
}

#[derive(Debug, Clone, Copy, PartialEq, Eq, Structural)]
pub struct MSSQLEngine {
    pub version: u16,
}

#[derive(Debug, Clone, Copy, PartialEq, Eq, Structural)]
pub struct OracleEngine {
    pub version: u16,
}

#[derive(Debug, Clone, Copy, PartialEq, Eq, Structural)]
pub struct SQLiteEngine {
    pub version: u16,
}

#[derive(Debug, Clone, Copy, PartialEq, Eq, Structural)]
pub struct MariaDBEngine {
    pub version: u16,
}

/// The backend family a query is meant for, with the version the server
/// reports for it. The version is carried along and never checked.
#[derive(Debug, Clone, Copy, PartialEq, Eq, Structural)]
pub enum DBEngine {
    Mongo(MongoEngine),
    Postgres(PostgreSQLEngine),
    MySQL(MySQLEngine),
    MSSQL(MSSQLEngine),
    Oracle(OracleEngine),
    SQLite(SQLiteEngine),
    MariaDB(MariaDBEngine),
}

/// The engine that the wire tag `tag` names, with version `version`.
pub open spec fn engine_of(tag: Seq<char>, version: u16) -> Option<DBEngine> {
    if tag == "mongo"@ {
        Some(DBEngine::Mongo(MongoEngine { version }))
    } else if tag == "postgres"@ {
        Some(DBEngine::Postgres(PostgreSQLEngine { version }))
    } else if tag == "mysql"@ {
        Some(DBEngine::MySQL(MySQLEngine { version }))
    } else if tag == "mssql"@ {
        Some(DBEngine::MSSQL(MSSQLEngine { version }))
    } else if tag == "oracle"@ {
        Some(DBEngine::Oracle(OracleEngine { version }))
    } else if tag == "sqlite"@ {
        Some(DBEngine::SQLite(SQLiteEngine { version }))
    } else if tag == "mariadb"@ {
        Some(DBEngine::MariaDB(MariaDBEngine { version }))
    } else {
        None
    }
}

impl DBEngine {
    /// The wire tag of the engine family.
    pub open spec fn spec_tag(self) -> Seq<char> {
        match self {
            DBEngine::Mongo(_) => "mongo"@,
            DBEngine::Postgres(_) => "postgres"@,
            DBEngine::MySQL(_) => "mysql"@,
            DBEngine::MSSQL(_) => "mssql"@,
            DBEngine::Oracle(_) => "oracle"@,
            DBEngine::SQLite(_) => "sqlite"@,
            DBEngine::MariaDB(_) => "mariadb"@,
        }
    }

    pub open spec fn spec_version(self) -> u16 {
        match self {
            DBEngine::Mongo(e) => e.version,
            DBEngine::Postgres(e) => e.version,
            DBEngine::MySQL(e) => e.version,
            DBEngine::MSSQL(e) => e.version,
            DBEngine::Oracle(e) => e.version,
            DBEngine::SQLite(e) => e.version,
            DBEngine::MariaDB(e) => e.version,
        }
    }

    pub fn tag(&self) -> (r: &'static str)
        ensures
            r@ == self.spec_tag(),
    {
        match self {
            DBEngine::Mongo(_) => "mongo",
            DBEngine::Postgres(_) => "postgres",
            DBEngine::MySQL(_) => "mysql",
            DBEngine::MSSQL(_) => "mssql",
            DBEngine::Oracle(_) => "oracle",
            DBEngine::SQLite(_) => "sqlite",
            DBEngine::MariaDB(_) => "mariadb",
        }
    }

    pub fn version(&self) -> (r: u16)
        ensures
            r == self.spec_version(),
    {
        match self {
            DBEngine::Mongo(e) => e.version,
            DBEngine::Postgres(e) => e.version,
            DBEngine::MySQL(e) => e.version,
            DBEngine::MSSQL(e) => e.version,
            DBEngine::Oracle(e) => e.version,
            DBEngine::SQLite(e) => e.version,
            DBEngine::MariaDB(e) => e.version,
        }
    }

    /// The engine that a wire tag names; `None` for a tag of no known family.
    pub fn from_tag(tag: &str, version: u16) -> (r: Option<DBEngine>)
        ensures
            r == engine_of(tag@, version),
    {
        let t = String::from_str(tag);
        if t == String::from_str("mongo") {
            Some(DBEngine::Mongo(MongoEngine { version }))
        } else if t == String::from_str("postgres") {
            Some(DBEngine::Postgres(PostgreSQLEngine { version }))
        } else if t == String::from_str("mysql") {
            Some(DBEngine::MySQL(MySQLEngine { version }))
        } else if t == String::from_str("mssql") {
            Some(DBEngine::MSSQL(MSSQLEngine { version }))
        } else if t == String::from_str("oracle") {
            Some(DBEngine::Oracle(OracleEngine { version }))
        } else if t == String::from_str("sqlite") {
            Some(DBEngine::SQLite(SQLiteEngine { version }))
        } else if t == String::from_str("mariadb") {
            Some(DBEngine::MariaDB(MariaDBEngine { version }))
        } else {
            None
        }
    }
}

/// Every engine is read back from its own tag and version.
pub proof fn lemma_engine_tag_round_trip(e: DBEngine)
    ensures
        engine_of(e.spec_tag(), e.spec_version()) == Some(e),
{
    reveal_strlit("mongo");
    reveal_strlit("postgres");
    reveal_strlit("mysql");
    reveal_strlit("mssql");
    reveal_strlit("oracle");
    reveal_strlit("sqlite");
    reveal_strlit("mariadb");
    assert("mongo"@[0] == 'm' && "mongo"@[1] == 'o');
    assert("postgres"@[0] == 'p' && "postgres"@[1] == 'o');
    assert("mysql"@[0] == 'm' && "mysql"@[1] == 'y');
    assert("mssql"@[0] == 'm' && "mssql"@[1] == 's');
    assert("oracle"@[0] == 'o' && "oracle"@[1] == 'r');
    assert("sqlite"@[0] == 's' && "sqlite"@[1] == 'q');
    assert("mariadb"@[0] == 'm' && "mariadb"@[1] == 'a');
}

/// One command from the server: run `data` against the backend at `uri`,
/// read as `engine` says.
#[derive(Debug)]
pub struct Query {
    pub uri: String,
    pub engine: DBEngine,
    pub data: Json,
}

/// How much the agent prints about the queries it runs.
#[derive(Debug, Clone, Copy)]
pub struct QueryOptions {
    pub rich_logging: bool,
    pub max_stdout_result_length: usize,
}

/// The backend work a query turns into, for an engine the agent can reach.
#[derive(Debug)]
pub enum ExecutionPlan {
    /// Run an aggregation pipeline on a collection of the URI's default database.
    Mongo { uri: String, collection: String, pipeline: Vec<Json> },
    /// Run a SQL statement that returns the rows as one JSON array.
    Postgres { uri: String, statement: String },
}

/// Why a query was not run.
#[derive(Debug)]
pub enum ExecutionError {
    /// No executor is registered for this engine.
    Unsupported(DBEngine),
    /// The query's data does not have the shape its engine reads.
    InvalidData(String),
}

/// The content of an execution plan.
pub enum PlanView {
    Mongo { uri: Seq<char>, collection: Seq<char>, pipeline: Seq<Json> },
    Postgres { uri: Seq<char>, statement: Seq<char> },
}

impl View for ExecutionPlan {
    type V = PlanView;

    open spec fn view(&self) -> PlanView {
        match self {
            ExecutionPlan::Mongo { uri, collection, pipeline } => PlanView::Mongo {
                uri: uri@,
                collection: collection@,
                pipeline: pipeline@,
            },
            ExecutionPlan::Postgres { uri, statement } => PlanView::Postgres { uri: uri@, statement: statement@ },
        }
    }
}

/// The engines that have an executor.
pub open spec fn is_supported(engine: DBEngine) -> bool {
    engine is Mongo || engine is Postgres
}

/// The statement that runs `query` and gathers its rows into one JSON array.
pub open spec fn postgres_statement_of(query: Seq<char>) -> Seq<char> {
    "SELECT JSON_AGG(t) FROM ("@ + query + ") t"@
}

/// The work that `data` describes for `engine`, if it has the engine's shape:
/// for Mongo `{"collection": name, "pipeline": [document, ..]}`, for Postgres
/// a string of SQL.
pub open spec fn plan_of(uri: Seq<char>, engine: DBEngine, data: Json) -> Option<PlanView> {
    match engine {
        DBEngine::Mongo(_) => match data {
            Json::Object(m) => match lookup(m@, "collection"@) {
                Some(Json::Str(c)) => match lookup(m@, "pipeline"@) {
                    Some(Json::Array(stages)) => if forall|i: int| 0 <= i < stages@.len() ==> (#[trigger] stages@[i]) is Object {
                        Some(PlanView::Mongo { uri, collection: c@, pipeline: stages@ })
                    } else {
                        None
                    },
                    _ => None,
                },
                _ => None,
            },
            _ => None,
        },
        DBEngine::Postgres(_) => match data {
            Json::Str(q) => Some(PlanView::Postgres { uri, statement: postgres_statement_of(q@) }),
            _ => None,
        },
        _ => None,
    }
}

/// Wraps a SQL query so that it returns its rows as one JSON array.
pub fn postgres_statement(query: &str) -> (r: String)
    ensures
        r@ == postgres_statement_of(query@),
{
    let head = String::from_str("SELECT JSON_AGG(t) FROM (");
    head.concat(query).concat(") t")
}

/// The value of a Postgres query whose aggregate came back `row`: no rows
/// aggregate to SQL null, which stands for the empty array.
pub fn postgres_result(row: Option<Json>) -> (r: Json)
    ensures
        match row {
            Some(v) => r == v,
            None => (r matches Json::Array(a) && a@.len() == 0),
        },
{
    match row {
        Some(v) => v,
        None => Json::Array(Vec::new()),
    }
}

/// Whether every stage of a pipeline is a document.
fn all_documents(stages: &Vec<Json>) -> (r: bool)
    ensures
        r == forall|i: int| 0 <= i < stages@.len() ==> (#[trigger] stages@[i]) is Object,
{
    let mut i: usize = 0;
    while i < stages.len()
        invariant
            i <= stages@.len(),
            forall|k: int| 0 <= k < i ==> (#[trigger] stages@[k]) is Object,
        decreases stages@.len() - i,
    {
        match &stages[i] {
            Json::Object(_) => {},
            _ => return false,
        }
        i = i + 1;
    }
    true
}

impl Query {
    /// Picks the executor for this query and reads its data into the shape
    /// that executor takes. An engine without an executor is refused whatever
    /// the data; for one with an executor the data decides.
    pub fn plan(self) -> (r: Result<ExecutionPlan, ExecutionError>)
        ensures
            !is_supported(self.engine) ==> (r matches Err(ExecutionError::Unsupported(e)) && e == self.engine),
            is_supported(self.engine) ==> match plan_of(self.uri@, self.engine, self.data) {
                Some(p) => (r matches Ok(x) && x@ == p),
                None => r matches Err(ExecutionError::InvalidData(_)),
            },
    {
        let Query { uri, engine, data } = self;
        match engine {
            DBEngine::Mongo(_) => {
                let mut m = match data {
                    Json::Object(m) => m,
                    _ => return Err(ExecutionError::InvalidData(String::from_str("Mongo query data is not an object"))),
                };
                let collection = match find_member(&m, "collection") {
                    Some(i) => match &m[i].1 {
                        Json::Str(c) => c.clone(),
                        _ => return Err(ExecutionError::InvalidData(String::from_str("field `collection` is not a string"))),
                    },
                    None => return Err(ExecutionError::InvalidData(String::from_str("missing field `collection`"))),
                };
                let pipeline = match find_member(&m, "pipeline") {
                    Some(i) => {
                        let (_, p) = m.remove(i);
                        match p {
                            Json::Array(stages) => stages,
                            _ => return Err(ExecutionError::InvalidData(String::from_str("field `pipeline` is not an array"))),
                        }
                    },
                    None => return Err(ExecutionError::InvalidData(String::from_str("missing field `pipeline`"))),
                };
                if !all_documents(&pipeline) {
                    return Err(ExecutionError::InvalidData(String::from_str("a pipeline stage is not a document")));
                }
                Ok(ExecutionPlan::Mongo { uri, collection, pipeline })
            },
            DBEngine::Postgres(_) => match data {
                Json::Str(q) => Ok(ExecutionPlan::Postgres { uri, statement: postgres_statement(q.as_str()) }),
                _ => Err(ExecutionError::InvalidData(String::from_str("Postgres query data is not a string"))),
            },
            _ => Err(ExecutionError::Unsupported(engine)),
        }
    }
}

/// What a result print shows of `text`: all of it up to `max` characters,
/// else its first `max` characters and a mark that it was cut.
pub open spec fn shown_of(text: Seq<char>, max: nat) -> Seq<char> {
    if text.len() > max {
        text.subrange(0, max as int) + "... (truncated)"@
    } else {
        text
    }
}

/// Shortens a result for printing.
pub fn truncate_for_display(text: &str, max: usize) -> (r: String)
    ensures
        r@ == shown_of(text@, max as nat),
{
    if text.unicode_len() > max {
        let head = String::from_str(text.substring_char(0, max));
        head.concat("... (truncated)")
    } else {
        String::from_str(text)
    }
}

/// The index of the last `@` of `s`, or -1.
pub open spec fn last_at(s: Seq<char>) -> int
    decreases s.len(),
{
    if s.len() == 0 {
        -1
    } else if s.last() == '@' {
        s.len() - 1
    } else {
        last_at(s.drop_last())
    }
}

pub proof fn lemma_last_at_bounds(s: Seq<char>)
    ensures
        -1 <= last_at(s) < s.len(),
    decreases s.len(),
{
    if s.len() > 0 && s.last() != '@' {
        lemma_last_at_bounds(s.drop_last());
    }
}

/// What follows the credentials of a connection URI: the text after its last
/// `@`, or all of it where it has none. Used to name a server without
/// printing a password.
pub open spec fn host_part_of(uri: Seq<char>) -> Seq<char> {
    uri.subrange(last_at(uri) + 1, uri.len() as int)
}

pub fn host_part(uri: &str) -> (r: String)
    ensures
        r@ == host_part_of(uri@),
{
    let n = uri.unicode_len();
    let mut i: usize = 0;
    let mut start: usize = 0;
    while i < n
        invariant
            n == uri@.len(),
            i <= n,
            start as int == last_at(uri@.subrange(0, i as int)) + 1,
        decreases n - i,
    {
        assert(uri@.subrange(0, i + 1).drop_last() =~= uri@.subrange(0, i as int));
        if uri.get_char(i) == '@' {
            start = i + 1;
        }
        i = i + 1;
    }
    assert(uri@.subrange(0, n as int) =~= uri@);
    proof {
        lemma_last_at_bounds(uri@);
    }
    String::from_str(uri.substring_char(start, n))
}

} // verus!
