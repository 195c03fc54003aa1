//! Table names and collation bounds of the compute unit's SQLite store.
use vstd::prelude::*;
use crate::text::{lemma_seq_lt_common_prefix, remove_occurrences, seq_lt, without_occurrences};

verus! {

pub const PROCESSES_TABLE: &'static str = "processes";

pub const BLOCKS_TABLE: &'static str = "blocks";

pub const MODULES_TABLE: &'static str = "modules";

pub const EVALUATIONS_TABLE: &'static str = "evaluations";

pub const MESSAGES_TABLE: &'static str = "messages";

/// A high code point that closes a prefix range query: only strings with the
/// prefix sort below it.
pub const COLLATION_SEQUENCE_MAX_CHAR: &'static str = "\u{10FFFF}";

/// Every string that extends `prefix` by a character below
/// `COLLATION_SEQUENCE_MAX_CHAR` (that is, by any other character) sorts
/// before `prefix` followed by that character, so it closes a range of
/// strings with the prefix.
pub proof fn max_char_closes_prefix_range(prefix: Seq<char>, rest: Seq<char>)
    requires
        rest.len() > 0,
        rest[0] < '\u{10FFFF}',
    ensures
        seq_lt(prefix + rest, prefix + COLLATION_SEQUENCE_MAX_CHAR@),
{
    reveal_strlit("\u{10FFFF}");
    lemma_seq_lt_common_prefix(prefix, rest, COLLATION_SEQUENCE_MAX_CHAR@);
}

/// The code point of `COLLATION_SEQUENCE_MAX_CHAR`, written into evaluation
/// ids that bound a range from above.
pub const COLLATION_SEQUENCE_MAX_CHAR_AS_I64: i64 = 0x10FFFF;

/// A character small enough to open a range query.
pub const COLLATION_SEQUENCE_MIN_CHAR: &'static str = "0";

/// A row of `sqlite_master`.
pub struct SqliteMasterEntry {
    pub type_: String,
    pub name: String,
    pub tbl_name: Option<String>,
    pub rootpage: i64,
    pub sql: Option<String>,
}

/// A row of `pragma_function_list`.
#[allow(unused)]
pub struct PragmaFunctionList {
    name: String,
    type_: String,
}

/// Gives access to a database connection.
pub trait ConnGetter {
    type Output;

    fn get_conn(&self) -> &Self::Output;
}

/// Whether to schedule WAL checkpoints and above which WAL size in bytes:
/// off unless asked for, and 100 bytes unless another limit is given.
pub fn wal_checkpoint_settings(bootstrap: Option<bool>, wal_limit: Option<u64>) -> (r: (
    bool,
    u64,
))
    ensures
        r.0 == (bootstrap == Some(true)),
        r.1 == match wal_limit {
            Some(l) => l,
            None => 100,
        },
{
    let b = match bootstrap {
        Some(b) => b,
        None => false,
    };
    let l = match wal_limit {
        Some(l) => l,
        None => 100,
    };
    (b, l)
}

pub const CREATE_PROCESSES_0: &'static str = "\n                CREATE TABLE IF NOT EXISTS ";
pub const CREATE_PROCESSES_1: &'static str = " (\n                    id TEXT PRIMARY KEY,\n                    signature TEXT,\n                    data TEXT,\n                    anchor TEXT,\n                    owner TEXT,\n                    tags JSONB,\n                    block JSONB\n                ) WITHOUT ROWID;\n            ";
pub const CREATE_BLOCKS_0: &'static str = "\n            CREATE TABLE IF NOT EXISTS ";
pub const CREATE_BLOCKS_1: &'static str = " (\n                id INTEGER PRIMARY KEY,\n                height INTEGER,\n                timestamp INTEGER\n            ) WITHOUT ROWID;\n        ";
pub const CREATE_MODULES_0: &'static str = "\n            CREATE TABLE IF NOT EXISTS ";
pub const CREATE_MODULES_1: &'static str = " (\n                id TEXT PRIMARY KEY,\n                owner TEXT,\n                tags JSONB\n            ) WITHOUT ROWID;\n        ";
pub const CREATE_EVALUATIONS_0: &'static str = "\n            CREATE TABLE IF NOT EXISTS ";
pub const CREATE_EVALUATIONS_1: &'static str = " (\n                id TEXT PRIMARY KEY,\n                processId TEXT,\n                messageId TEXT,\n                deepHash TEXT,\n                nonce INTEGER,\n                epoch INTEGER,\n                timestamp INTEGER,\n                ordinate TEXT,\n                blockHeight INTEGER,\n                cron TEXT,\n                output JSONB,\n                evaluatedAt INTEGER\n            ) WITHOUT ROWID;\n        ";
pub const CREATE_MESSAGES_0: &'static str = "\n            CREATE TABLE IF NOT EXISTS ";
pub const CREATE_MESSAGES_1: &'static str = " (\n                id TEXT,\n                processId TEXT,\n                seq TEXT,\n                PRIMARY KEY (id, processId)\n            ) WITHOUT ROWID;\n        ";
pub const CREATE_BLOCK_INDEXES_0: &'static str = "\n            CREATE INDEX IF NOT EXISTS idx_";
pub const CREATE_BLOCK_INDEXES_1: &'static str = "_height_timestamp\n            ON ";
pub const CREATE_BLOCK_INDEXES_2: &'static str = "\n            (height, timestamp);\n        ";
pub const CREATE_MESSAGE_INDEXES_0: &'static str = "\n            CREATE INDEX IF NOT EXISTS idx_";
pub const CREATE_MESSAGE_INDEXES_1: &'static str = "_id_processId_seq\n            ON ";
pub const CREATE_MESSAGE_INDEXES_2: &'static str = "\n            (id, processId, seq);\n        ";

/// The statements that create the store's tables and indexes, in the order
/// they run: processes, blocks, modules, evaluations and messages, then the
/// block and message indexes.
pub open spec fn schema_statements_spec() -> Seq<Seq<char>> {
    seq![
        CREATE_PROCESSES_0@ + PROCESSES_TABLE@ + CREATE_PROCESSES_1@,
        CREATE_BLOCKS_0@ + BLOCKS_TABLE@ + CREATE_BLOCKS_1@,
        CREATE_MODULES_0@ + MODULES_TABLE@ + CREATE_MODULES_1@,
        CREATE_EVALUATIONS_0@ + EVALUATIONS_TABLE@ + CREATE_EVALUATIONS_1@,
        CREATE_MESSAGES_0@ + MESSAGES_TABLE@ + CREATE_MESSAGES_1@,
        CREATE_BLOCK_INDEXES_0@ + BLOCKS_TABLE@ + CREATE_BLOCK_INDEXES_1@ + BLOCKS_TABLE@ + CREATE_BLOCK_INDEXES_2@,
        CREATE_MESSAGE_INDEXES_0@ + MESSAGES_TABLE@ + CREATE_MESSAGE_INDEXES_1@ + MESSAGES_TABLE@ + CREATE_MESSAGE_INDEXES_2@,
    ]
}

/// The statements that create the store's tables and indexes (see
/// `schema_statements_spec`).
pub fn schema_statements() -> (v: Vec<String>)
    ensures
        v.deep_view() == schema_statements_spec(),
{
    let mut statements: Vec<String> = Vec::new();
    {
        let mut s = CREATE_PROCESSES_0.to_owned();
        s.append(PROCESSES_TABLE);
        s.append(CREATE_PROCESSES_1);
        statements.push(s);
    }
    {
        let mut s = CREATE_BLOCKS_0.to_owned();
        s.append(BLOCKS_TABLE);
        s.append(CREATE_BLOCKS_1);
        statements.push(s);
    }
    {
        let mut s = CREATE_MODULES_0.to_owned();
        s.append(MODULES_TABLE);
        s.append(CREATE_MODULES_1);
        statements.push(s);
    }
    {
        let mut s = CREATE_EVALUATIONS_0.to_owned();
        s.append(EVALUATIONS_TABLE);
        s.append(CREATE_EVALUATIONS_1);
        statements.push(s);
    }
    {
        let mut s = CREATE_MESSAGES_0.to_owned();
        s.append(MESSAGES_TABLE);
        s.append(CREATE_MESSAGES_1);
        statements.push(s);
    }
    {
        let mut s = CREATE_BLOCK_INDEXES_0.to_owned();
        s.append(BLOCKS_TABLE);
        s.append(CREATE_BLOCK_INDEXES_1);
        s.append(BLOCKS_TABLE);
        s.append(CREATE_BLOCK_INDEXES_2);
        statements.push(s);
    }
    {
        let mut s = CREATE_MESSAGE_INDEXES_0.to_owned();
        s.append(MESSAGES_TABLE);
        s.append(CREATE_MESSAGE_INDEXES_1);
        s.append(MESSAGES_TABLE);
        s.append(CREATE_MESSAGE_INDEXES_2);
        statements.push(s);
    }
    assert(statements.deep_view() =~= schema_statements_spec());
    statements
}

/// Whether a write-ahead log of `wal_size` bytes is to be checkpointed
/// under the limit `wal_limit`: it is larger than the limit.
pub fn needs_wal_checkpoint(wal_size: u64, wal_limit: u64) -> (b: bool)
    ensures
        b == (wal_size > wal_limit),
{
    wal_size > wal_limit
}

/// The scheme prefix of a store URL.
pub const SQLITE_SCHEME: &'static str = "sqlite://";

/// The path of the database file of the store at `url`: the URL with its
/// `sqlite://` scheme taken out. The write-ahead log lies beside it, with
/// `-wal` appended.
pub fn database_path(url: &str) -> (p: String)
    ensures
        p@ == without_occurrences(url@, SQLITE_SCHEME@),
{
    remove_occurrences(url, SQLITE_SCHEME)
}

} // verus!
