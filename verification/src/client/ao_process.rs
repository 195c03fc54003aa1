//! The process memory cache's entries and their lifetimes, the choice of the
//! checkpoint to evaluate from, and the SQL statements that find and store
//! processes.
use vstd::prelude::*;
use std::time::Duration;
use moka::future::Cache;
use crate::client::sqlite::PROCESSES_TABLE;
use crate::errors::{http_error, schema_error, CuErrors};
use crate::model::model::{BlockSchema, EvaluationSchema, ProcessSchema, RawTagSchema};
use crate::schema_utils::{
    comes_after, evaluation_order_asymmetric, evaluation_order_irreflexive, is_earlier_than,
    is_equal_to, is_later_then, PartialEvaluationSchema,
};
use crate::strings::{get_empty_string, or_empty};
use crate::client::ao_evaluation::optional_text_read;
use crate::text::{concat3, str_eq};

verus! {

/// A query with its positional parameters.
pub struct SelectQuery {
    pub sql: String,
    pub parameters: Vec<String>,
}

/// An insert with its seven positional parameters.
pub struct InsertQuery {
    pub sql: String,
    pub parameters: (String, String, String, String, String, String, String),
}

/// The destination that asks for the latest cached memory of a process.
pub const LATEST: &'static str = "LATEST";

pub const FIND_PROCESS_HEAD: &'static str = "\n                SELECT id, signature, data, anchor, owner, tags, block\n                FROM ";

pub const FIND_PROCESS_TAIL: &'static str = "\n                WHERE\n                id = ?;\n            ";

pub const SAVE_PROCESS_HEAD: &'static str = "\n                INSERT OR IGNORE INTO ";

pub const SAVE_PROCESS_TAIL: &'static str = "\n                (id, signature, data, anchor, owner, tags, block)\n                VALUES (?, ?, ?, ?, ?, ?, ?);\n            ";

pub const PROCESS_NOT_FOUND: &'static str = "Process not found";

pub const PROCESS_VALIDATION_FAILED: &'static str = "ProcessSchema validation failed";

/// What `std::time::Duration::from_secs` gives for a number of seconds.
pub uninterp spec fn duration_from_secs(secs: u64) -> Duration;

/// Calls `std::time::Duration::from_secs`. Claims only that the result is
/// `duration_from_secs` of the argument.
#[verifier::external_body]
fn seconds_duration(secs: u64) -> (d: Duration)
    ensures
        d == duration_from_secs(secs),
{
    Duration::from_secs(secs)
}

/// How long an entry of the process memory cache lives.
#[derive(Clone, Copy, Debug, PartialEq, Eq, Structural)]
pub enum Expiration {
    /// The value never expires.
    Never,
    OneSecond,
    FiveSeconds,
    TenSeconds,
}

impl Expiration {
    /// The lifetime in seconds, `None` where the entry never expires.
    pub open spec fn seconds(&self) -> Option<u64> {
        match self {
            Expiration::Never => None,
            Expiration::OneSecond => Some(1),
            Expiration::FiveSeconds => Some(5),
            Expiration::TenSeconds => Some(10),
        }
    }

    /// The lifetime for a time to live of `whole_seconds` seconds: never
    /// expiring below one second, then the first of 1, 5 and 10 seconds that
    /// is not shorter.
    pub open spec fn from_whole_seconds(whole_seconds: int) -> Expiration {
        if whole_seconds == 0 {
            Expiration::Never
        } else if whole_seconds == 1 {
            Expiration::OneSecond
        } else if whole_seconds <= 5 {
            Expiration::FiveSeconds
        } else {
            Expiration::TenSeconds
        }
    }

    /// The lifetime as a duration, `None` where the entry never expires.
    pub fn as_duration(&self) -> (d: Option<Duration>)
        ensures
            d == match self.seconds() {
                Some(s) => Some(duration_from_secs(s)),
                None => None::<Duration>,
            },
    {
        match self {
            Expiration::Never => None,
            Expiration::OneSecond => Some(seconds_duration(1)),
            Expiration::FiveSeconds => Some(seconds_duration(5)),
            Expiration::TenSeconds => Some(seconds_duration(10)),
        }
    }

    /// The lifetime for a time to live of `ttl` milliseconds, of which only
    /// whole seconds count; at most ten seconds are supported.
    pub fn get_expiration_from_ms(ttl: u64) -> (e: Self)
        requires
            ttl / 1000 <= 10,
        ensures
            e == Self::from_whole_seconds((ttl / 1000) as int),
    {
        let whole_seconds = ttl / 1000;
        if whole_seconds == 0 {
            Expiration::Never
        } else if whole_seconds == 1 {
            Expiration::OneSecond
        } else if whole_seconds <= 5 {
            Expiration::FiveSeconds
        } else {
            Expiration::TenSeconds
        }
    }
}

/// An entry chosen for a time to live of `ttl` milliseconds never expires
/// exactly when `ttl` is below one second, and otherwise lives at least the
/// whole seconds of `ttl`, and at most ten seconds.
pub proof fn expiration_covers_ttl(ttl: u64)
    requires
        ttl / 1000 <= 10,
    ensures
        Expiration::from_whole_seconds((ttl / 1000) as int).seconds() is None <==> ttl < 1000,
        Expiration::from_whole_seconds((ttl / 1000) as int).seconds() matches Some(s) ==> ttl
            / 1000 <= s <= 10,
{
}

/// An entry of the process memory cache: the evaluation it was cached at,
/// and the process memory, either in memory or as the contents of the file
/// it was drained to.
pub struct CacheEntry {
    pub evaluation: EvaluationSchema,
    pub memory: Option<Vec<u8>>,
    pub file: Option<Vec<u8>>,
    pub expiration: Expiration,
}

impl Clone for CacheEntry {
    fn clone(&self) -> (r: Self)
        ensures
            r.evaluation == self.evaluation,
            r.memory.deep_view() == self.memory.deep_view(),
            r.file.deep_view() == self.file.deep_view(),
            r.expiration == self.expiration,
    {
        CacheEntry {
            evaluation: self.evaluation.clone(),
            memory: match &self.memory {
                Some(m) => Some(m.clone()),
                None => None,
            },
            file: match &self.file {
                Some(f) => Some(f.clone()),
                None => None,
            },
            expiration: self.expiration,
        }
    }
}

/// Whether the entry holds its memory, in memory or in a file.
pub open spec fn holds_memory(entry: CacheEntry) -> bool {
    entry.memory is Some || entry.file is Some
}

/// The size of an entry's memory: of the memory where it is held, else of
/// the file.
pub open spec fn stored_len(entry: CacheEntry) -> nat {
    match entry.memory {
        Some(m) => m@.len(),
        None => entry.file->0@.len(),
    }
}

/// The weight of an entry in the cache: its memory's size, truncated to 32
/// bits.
pub fn cache_entry_weight(value: &CacheEntry) -> (w: u32)
    requires
        holds_memory(*value),
    ensures
        w == (stored_len(*value) as u32),
{
    match &value.memory {
        Some(m) => m.len() as u32,
        None => match &value.file {
            Some(f) => f.len() as u32,
            None => 0,
        },
    }
}

/// The size of an entry's memory.
pub fn cache_entry_size(value: &CacheEntry) -> (s: u64)
    requires
        holds_memory(*value),
    ensures
        s == stored_len(*value),
{
    match &value.memory {
        Some(m) => m.len() as u64,
        None => match &value.file {
            Some(f) => f.len() as u64,
            None => 0,
        },
    }
}

/// Whether setting `value` in the cache starts the timer that drains its
/// memory to a file: it holds memory and draining is switched on.
pub fn drains_to_file(value: &CacheEntry, drain_to_file_threshold: u64) -> (b: bool)
    ensures
        b == (value.memory is Some && drain_to_file_threshold > 0),
{
    value.memory.is_some() && drain_to_file_threshold > 0
}

/// The entry that replaces `value` once its memory has been written to a
/// file with contents `file`: the same evaluation, no memory, the file, and a
/// fresh lifetime for a time to live of `ttl` milliseconds.
pub fn drained_entry(value: &CacheEntry, file: Vec<u8>, ttl: u64) -> (e: CacheEntry)
    requires
        ttl / 1000 <= 10,
    ensures
        e.evaluation == value.evaluation,
        e.memory is None,
        e.file == Some(file),
        e.expiration == Expiration::from_whole_seconds((ttl / 1000) as int),
{
    CacheEntry {
        evaluation: value.evaluation.clone(),
        file: Some(file),
        memory: None,
        expiration: Expiration::get_expiration_from_ms(ttl),
    }
}

/// Decides how long cache entries live.
pub struct AoProcessCacheExpiry;

impl AoProcessCacheExpiry {
    /// A new entry lives as long as its expiration says.
    pub fn expire_after_create(&self, _key: &String, value: &CacheEntry) -> (d: Option<Duration>)
        ensures
            d == match value.expiration.seconds() {
                Some(s) => Some(duration_from_secs(s)),
                None => None::<Duration>,
            },
    {
        value.expiration.as_duration()
    }
}

/// A cached process and the size of its memory.
pub struct Process {
    pub process: String,
    pub size: u64,
}

/// The usage of the process memory cache: its number of entries, their
/// total weight, and each process with its memory size.
pub struct ProcessesToLoad {
    /// number of items in cache
    pub size: u64,
    pub calculated_size: u64,
    pub processes: Vec<Process>,
}

/// The usage report of a cache with `size` entries of total weight
/// `calculated_size`, whose entries are `entries`, in their order.
pub fn processes_to_load(size: u64, calculated_size: u64, entries: &Vec<(String, CacheEntry)>) -> (r:
    ProcessesToLoad)
    requires
        forall|i: int| 0 <= i < entries.len() ==> holds_memory(#[trigger] entries[i].1),
    ensures
        r.size == size,
        r.calculated_size == calculated_size,
        r.processes.len() == entries.len(),
        forall|i: int|
            0 <= i < entries.len() ==> (#[trigger] r.processes[i]).process == entries[i].0
                && r.processes[i].size == stored_len(entries[i].1),
{
    let mut processes: Vec<Process> = Vec::new();
    let mut i: usize = 0;
    while i < entries.len()
        invariant
            i <= entries.len(),
            processes.len() == i,
            forall|j: int| 0 <= j < entries.len() ==> holds_memory(#[trigger] entries[j].1),
            forall|j: int|
                0 <= j < i ==> (#[trigger] processes[j]).process == entries[j].0
                    && processes[j].size == stored_len(entries[j].1),
        decreases entries.len() - i,
    {
        let (key, value) = &entries[i];
        processes.push(Process { process: key.clone(), size: cache_entry_size(value) });
        i = i + 1;
    }
    ProcessesToLoad { size, calculated_size, processes }
}

#[verifier::external_type_specification]
#[verifier::external_body]
#[verifier::reject_recursive_types(K)]
#[verifier::reject_recursive_types(V)]
#[verifier::reject_recursive_types(S)]
pub struct ExMokaCache<K, V, S>(Cache<K, V, S>);

/// Calls `moka::future::Cache::entry_count`. The crate documents the number
/// as an estimate, so nothing is claimed of it.
#[verifier::external_body]
fn cache_entry_count(cache: &Cache<String, CacheEntry>) -> u64 {
    cache.entry_count()
}

/// Calls `moka::future::Cache::weighted_size`. The crate documents the
/// number as an estimate, so nothing is claimed of it.
#[verifier::external_body]
fn cache_weighted_size(cache: &Cache<String, CacheEntry>) -> u64 {
    cache.weighted_size()
}

/// Walks the cache with `moka::future::Cache::iter` and collects each key
/// and value. What the walk meets depends on timing (expiry, concurrent
/// writes) and its order is arbitrary, so nothing is claimed of the
/// entries.
#[verifier::external_body]
fn cache_entries(cache: &Cache<String, CacheEntry>) -> Vec<(String, CacheEntry)> {
    cache.iter().map(|(k, v)| (k.as_ref().clone(), v)).collect()
}

/// Whether `p` reports a cache of `size` entries of total weight
/// `calculated_size` whose entries are `entries`: each process in order with
/// its memory size.
pub open spec fn usage_report(
    size: u64,
    calculated_size: u64,
    entries: Seq<(String, CacheEntry)>,
    p: ProcessesToLoad,
) -> bool {
    &&& p.size == size
    &&& p.calculated_size == calculated_size
    &&& p.processes.len() == entries.len()
    &&& forall|i: int|
        0 <= i < entries.len() ==> (#[trigger] p.processes[i]).process == entries[i].0
            && p.processes[i].size == stored_len(entries[i].1)
}

/// The usage outcome for a cache with these entries: `None` exactly where
/// some entry holds its memory neither in memory nor in a file, otherwise
/// the report.
pub open spec fn usage_outcome(
    size: u64,
    calculated_size: u64,
    entries: Seq<(String, CacheEntry)>,
    r: Option<ProcessesToLoad>,
) -> bool {
    match r {
        None => exists|i: int| 0 <= i < entries.len() && !holds_memory(#[trigger] entries[i].1),
        Some(p) => (forall|i: int| 0 <= i < entries.len() ==> holds_memory(#[trigger] entries[i].1))
            && usage_report(size, calculated_size, entries, p),
    }
}

/// The usage report of a cache with `size` entries of total weight
/// `calculated_size` whose entries are `entries` (see `usage_outcome`).
pub fn usage_of_entries(size: u64, calculated_size: u64, entries: &Vec<(String, CacheEntry)>) -> (r:
    Option<ProcessesToLoad>)
    ensures
        usage_outcome(size, calculated_size, entries@, r),
{
    let mut i: usize = 0;
    while i < entries.len()
        invariant
            i <= entries.len(),
            forall|j: int| 0 <= j < i ==> holds_memory(#[trigger] entries[j].1),
        decreases entries.len() - i,
    {
        let (_, value) = &entries[i];
        if value.memory.is_none() && value.file.is_none() {
            assert(!holds_memory(entries@[i as int].1));
            return None;
        }
        i = i + 1;
    }
    let p = processes_to_load(size, calculated_size, entries);
    assert(usage_report(size, calculated_size, entries@, p));
    Some(p)
}

/// The usage report of the process memory cache: whatever its entry count
/// and weighted size estimates and the entries its walk meets, the report of
/// those (see `usage_outcome`): each entry met with its memory size, or
/// `None` where an entry met holds its memory neither in memory nor in a
/// file.
pub fn load_process_cache_usage(cache: &Cache<String, CacheEntry>) -> (r: Option<ProcessesToLoad>)
    ensures
        exists|size: u64, calculated_size: u64, entries: Seq<(String, CacheEntry)>|
            #[trigger] usage_outcome(size, calculated_size, entries, r),
{
    let size = cache_entry_count(cache);
    let calculated_size = cache_weighted_size(cache);
    let entries = cache_entries(cache);
    let r = usage_of_entries(size, calculated_size, &entries);
    assert(usage_outcome(size, calculated_size, entries@, r));
    r
}

/// The index of the first tag named `name`, if any.
pub open spec fn first_tag_named(tags: Seq<RawTagSchema>, name: Seq<char>) -> Option<int>
    decreases tags.len(),
{
    if tags.len() == 0 {
        None
    } else if tags.last().name@ == name && first_tag_named(tags.drop_last(), name) is None {
        Some(tags.len() - 1)
    } else {
        first_tag_named(tags.drop_last(), name)
    }
}

/// The value of the first tag named `name`, if there is one.
pub fn pluck_tag_value(name: String, tags: Vec<RawTagSchema>) -> (r: Option<String>)
    ensures
        match r {
            Some(v) => exists|i: int|
                0 <= i < tags.len() && tags[i].name@ == name@ && v == tags[i].value && forall|
                    j: int,
                | 0 <= j < i ==> tags[j].name@ != name@,
            None => forall|i: int| 0 <= i < tags.len() ==> tags[i].name@ != name@,
        },
{
    let mut i: usize = 0;
    while i < tags.len()
        invariant
            i <= tags.len(),
            forall|j: int| 0 <= j < i ==> tags[j].name@ != name@,
        decreases tags.len() - i,
    {
        if str_eq(tags[i].name.as_str(), name.as_str()) {
            return Some(tags[i].value.clone());
        }
        i = i + 1;
    }
    None
}

/// Whether a process owned by `id` may run: every owner may where the allow
/// list is empty, otherwise only the owners on it.
pub fn is_process_owner_supported(allow_owners: Vec<String>, id: String) -> (b: bool)
    ensures
        b == (allow_owners.len() == 0 || exists|i: int|
            0 <= i < allow_owners.len() && allow_owners[i]@ == id@),
{
    if allow_owners.len() == 0 {
        return true;
    }
    let mut i: usize = 0;
    while i < allow_owners.len()
        invariant
            i <= allow_owners.len(),
            forall|j: int| 0 <= j < i ==> allow_owners[j]@ != id@,
        decreases allow_owners.len() - i,
    {
        if str_eq(allow_owners[i].as_str(), id.as_str()) {
            return true;
        }
        i = i + 1;
    }
    false
}

/// Where an evaluation is headed: the latest point (`LATEST`), another
/// string, or a given evaluation.
pub enum Destination {
    IsString(String),
    IsEvaluation(EvaluationSchema),
}

/// Whether evaluation `b` comes after evaluation `a`.
pub open spec fn after(a: EvaluationSchema, b: EvaluationSchema) -> bool {
    comes_after(a.timestamp, a.cron.deep_view(), b.timestamp, b.cron.deep_view())
}

/// Whether `a` and `b` have the same timestamp and cron.
pub open spec fn same_place(a: EvaluationSchema, b: EvaluationSchema) -> bool {
    a.timestamp == b.timestamp && a.cron.deep_view() == b.cron.deep_view()
}

/// Whether the destination asks for the latest checkpoint.
pub open spec fn is_latest(destination: Destination) -> bool {
    destination matches Destination::IsString(d) && d@ == LATEST@
}

/// Whether `checkpoint` lies after the evaluation the destination names, or
/// at it.
pub open spec fn checkpoint_past(destination: Destination, checkpoint: EvaluationSchema) -> bool {
    match destination {
        Destination::IsEvaluation(d) => after(d, checkpoint) || same_place(d, checkpoint),
        Destination::IsString(_) => false,
    }
}

/// The checkpoint to evaluate from, of the current choice `cur_latest` and a
/// new `checkpoint`. For the latest destination, the later of the two (the
/// new one where neither is later). For an evaluation destination, the
/// current choice where the new checkpoint lies at or after the destination
/// or before the current choice, otherwise the new one. Any other
/// destination takes the new one.
pub open spec fn spec_latest_checkpoint_before(
    destination: Destination,
    cur_latest: Option<EvaluationSchema>,
    checkpoint: EvaluationSchema,
) -> EvaluationSchema {
    if is_latest(destination) {
        match cur_latest {
            None => checkpoint,
            Some(c) => if after(checkpoint, c) {
                c
            } else {
                checkpoint
            },
        }
    } else if destination is IsEvaluation && (checkpoint_past(destination, checkpoint) || (
    cur_latest matches Some(c) && after(checkpoint, c))) {
        cur_latest->0
    } else {
        checkpoint
    }
}

fn partial_of(e: &EvaluationSchema) -> (p: PartialEvaluationSchema)
    ensures
        p.timestamp == e.timestamp,
        p.cron == e.cron,
{
    PartialEvaluationSchema { timestamp: e.timestamp, cron: e.cron.clone() }
}

/// The checkpoint to evaluate from (see `spec_latest_checkpoint_before`).
/// A checkpoint at or after an evaluation destination needs a current
/// choice to fall back on.
pub fn latest_checkpoint_before(
    destination: &Destination,
    cur_latest: &Option<EvaluationSchema>,
    checkpoint: &EvaluationSchema,
) -> (r: EvaluationSchema)
    requires
        !(checkpoint_past(*destination, *checkpoint) && cur_latest is None),
    ensures
        r == spec_latest_checkpoint_before(*destination, *cur_latest, *checkpoint),
{
    if let Destination::IsString(d) = destination {
        if str_eq(d.as_str(), LATEST) {
            return match cur_latest {
                None => checkpoint.clone(),
                Some(c) => {
                    if is_earlier_than(partial_of(c), partial_of(checkpoint)) {
                        c.clone()
                    } else {
                        checkpoint.clone()
                    }
                },
            };
        }
    }
    if let Destination::IsEvaluation(d) = destination {
        let cur_is_later = match cur_latest {
            Some(c) => is_earlier_than(partial_of(c), partial_of(checkpoint)),
            None => false,
        };
        if is_later_then(partial_of(d), partial_of(checkpoint)) || is_equal_to(
            partial_of(d),
            partial_of(checkpoint),
        ) || cur_is_later {
            if let Some(c) = cur_latest {
                return c.clone();
            }
        }
    }
    checkpoint.clone()
}

/// For the latest destination, the chosen checkpoint is not earlier than
/// either candidate.
pub proof fn latest_checkpoint_is_latest(
    destination: Destination,
    cur_latest: Option<EvaluationSchema>,
    checkpoint: EvaluationSchema,
)
    requires
        is_latest(destination),
    ensures
        ({
            let r = spec_latest_checkpoint_before(destination, cur_latest, checkpoint);
            &&& !after(r, checkpoint)
            &&& (cur_latest matches Some(c) ==> !after(r, c))
        }),
{
    evaluation_order_irreflexive(checkpoint.timestamp, checkpoint.cron.deep_view());
    if let Some(c) = cur_latest {
        evaluation_order_irreflexive(c.timestamp, c.cron.deep_view());
        evaluation_order_asymmetric(
            checkpoint.timestamp,
            checkpoint.cron.deep_view(),
            c.timestamp,
            c.cron.deep_view(),
        );
    }
}

/// For an evaluation destination, the chosen checkpoint never lies after
/// the destination, nor at it, unless it is the current choice.
pub proof fn checkpoint_stays_before_destination(
    destination: Destination,
    cur_latest: Option<EvaluationSchema>,
    checkpoint: EvaluationSchema,
)
    requires
        destination is IsEvaluation,
        !(checkpoint_past(destination, checkpoint) && cur_latest is None),
    ensures
        ({
            let r = spec_latest_checkpoint_before(destination, cur_latest, checkpoint);
            &&& r == checkpoint || cur_latest == Some(r)
            &&& (cur_latest != Some(r) ==> !checkpoint_past(destination, r))
        }),
{
}

/// For an evaluation destination, a checkpoint is chosen exactly where it
/// lies strictly before the destination and the current choice (if any) is
/// not later than it; otherwise the current choice is kept. In particular a
/// checkpoint with an earlier timestamp than the destination and a later one
/// than the current choice is chosen, and one with a later timestamp than
/// the destination never replaces a current choice.
pub proof fn checkpoint_before_destination_is_chosen(
    destination: Destination,
    cur_latest: Option<EvaluationSchema>,
    checkpoint: EvaluationSchema,
)
    requires
        destination matches Destination::IsEvaluation(d),
    ensures
        ({
            let d = destination->IsEvaluation_0;
            let r = spec_latest_checkpoint_before(destination, cur_latest, checkpoint);
            &&& (!after(d, checkpoint) && !same_place(d, checkpoint) && (cur_latest matches Some(c)
                ==> !after(checkpoint, c))) ==> r == checkpoint
            &&& (after(d, checkpoint) || same_place(d, checkpoint) || (cur_latest matches Some(c)
                && after(checkpoint, c))) ==> r == cur_latest->0
            &&& (checkpoint.timestamp < d.timestamp && (cur_latest matches Some(c)
                ==> c.timestamp < checkpoint.timestamp)) ==> r == checkpoint
            &&& (checkpoint.timestamp > d.timestamp && cur_latest is Some) ==> r == cur_latest->0
        }),
{
}

/// For the latest destination, the checkpoint is chosen unless the current
/// choice is later than it: of two different timestamps, the later wins.
pub proof fn latest_checkpoint_prefers_later(
    destination: Destination,
    cur_latest: Option<EvaluationSchema>,
    checkpoint: EvaluationSchema,
)
    requires
        is_latest(destination),
    ensures
        ({
            let r = spec_latest_checkpoint_before(destination, cur_latest, checkpoint);
            &&& (cur_latest matches Some(c) && after(checkpoint, c)) ==> r == cur_latest->0
            &&& !(cur_latest matches Some(c) && after(checkpoint, c)) ==> r == checkpoint
            &&& (cur_latest matches Some(c) && c.timestamp > checkpoint.timestamp) ==> r
                == cur_latest->0
            &&& (cur_latest matches Some(c) && c.timestamp < checkpoint.timestamp) ==> r
                == checkpoint
        }),
{
}

/// The query for a process by its id.
pub fn create_find_process_query(process_id: &str) -> (q: SelectQuery)
    ensures
        q.sql@ == FIND_PROCESS_HEAD@ + PROCESSES_TABLE@ + FIND_PROCESS_TAIL@,
        q.parameters.deep_view() == seq![process_id@],
{
    let mut parameters: Vec<String> = Vec::new();
    parameters.push(process_id.to_owned());
    let q = SelectQuery { sql: concat3(FIND_PROCESS_HEAD, PROCESSES_TABLE, FIND_PROCESS_TAIL), parameters };
    assert(q.parameters.deep_view() =~= seq![process_id@]);
    q
}

/// The insert that stores a process, unless one with its id is stored
/// already. Absent signature and anchor are stored empty; `tags_json` and
/// `block_json` are the process's tags and block as JSON text.
pub fn create_save_process_query(process_schema: &ProcessSchema, tags_json: String, block_json: String) -> (q:
    InsertQuery)
    ensures
        q.sql@ == SAVE_PROCESS_HEAD@ + PROCESSES_TABLE@ + SAVE_PROCESS_TAIL@,
        q.parameters.0 == process_schema.id,
        q.parameters.1@ == or_empty(process_schema.signature.deep_view()),
        q.parameters.2 == process_schema.data,
        q.parameters.3@ == or_empty(process_schema.anchor.deep_view()),
        q.parameters.4 == process_schema.owner,
        q.parameters.5 == tags_json,
        q.parameters.6 == block_json,
        seq![
            q.parameters.0@,
            q.parameters.1@,
            q.parameters.2@,
            q.parameters.3@,
            q.parameters.4@,
            q.parameters.5@,
            q.parameters.6@,
        ] == save_process_parameters(*process_schema, tags_json@, block_json@),
{
    let q = InsertQuery {
        sql: concat3(SAVE_PROCESS_HEAD, PROCESSES_TABLE, SAVE_PROCESS_TAIL),
        parameters: (
            process_schema.id.clone(),
            get_empty_string(process_schema.signature.clone()),
            process_schema.data.clone(),
            get_empty_string(process_schema.anchor.clone()),
            process_schema.owner.clone(),
            tags_json,
            block_json,
        ),
    };
    assert(seq![
        q.parameters.0@,
        q.parameters.1@,
        q.parameters.2@,
        q.parameters.3@,
        q.parameters.4@,
        q.parameters.5@,
        q.parameters.6@,
    ] =~= save_process_parameters(*process_schema, q.parameters.5@, q.parameters.6@));
    q
}

/// The parameters of the insert that stores `p`, with its tags and block
/// as the JSON text `tags_json` and `block_json`.
pub open spec fn save_process_parameters(
    p: ProcessSchema,
    tags_json: Seq<char>,
    block_json: Seq<char>,
) -> Seq<Seq<char>> {
    seq![
        p.id@,
        or_empty(p.signature.deep_view()),
        p.data@,
        or_empty(p.anchor.deep_view()),
        p.owner@,
        tags_json,
        block_json,
    ]
}

/// A process row as read from the store; `tags` and `block` are JSON text.
pub struct ProcessQuerySchema {
    pub id: String,
    pub signature: Option<String>,
    pub data: String,
    pub anchor: Option<String>,
    pub owner: String,
    /// json string
    pub tags: String,
    /// json string
    pub block: String,
}

/// The process a row holds, with its tags and block as read from the row's
/// JSON text.
pub open spec fn process_of_row(
    row: ProcessQuerySchema,
    tags: Vec<RawTagSchema>,
    block: BlockSchema,
) -> ProcessSchema {
    ProcessSchema {
        id: row.id,
        signature: row.signature,
        data: row.data,
        anchor: row.anchor,
        owner: row.owner,
        tags,
        block,
    }
}

/// The answer to a process lookup, from the row found (with its tags and
/// block as read from its JSON text): the process where its id and owner
/// are not empty, a schema error where one is, and a 404 error where no
/// row was found.
pub fn find_process_result(found: Option<(ProcessQuerySchema, Vec<RawTagSchema>, BlockSchema)>) -> (r:
    Result<ProcessSchema, CuErrors>)
    ensures
        match found {
            None => r matches Err(CuErrors::HttpStatus(e)) && e.status == 404 && e.message@
                == PROCESS_NOT_FOUND@,
            Some((row, tags, block)) => if row.id@.len() >= 1 && row.owner@.len() >= 1 {
                r == Ok::<ProcessSchema, CuErrors>(process_of_row(row, tags, block))
            } else {
                r matches Err(CuErrors::SchemaValidation(e)) && e.message@
                    == PROCESS_VALIDATION_FAILED@
            },
        },
{
    match found {
        None => Err(http_error(404, PROCESS_NOT_FOUND)),
        Some((row, tags, block)) => {
            let process_schema = ProcessSchema {
                id: row.id,
                signature: row.signature,
                data: row.data,
                anchor: row.anchor,
                owner: row.owner,
                tags,
                block,
            };
            if process_schema.validate() {
                Ok(process_schema)
            } else {
                Err(schema_error(PROCESS_VALIDATION_FAILED))
            }
        },
    }
}

/// A process's fields, text as character sequences.
pub open spec fn process_fields(p: ProcessSchema) -> (
    Seq<char>,
    Option<Seq<char>>,
    Seq<char>,
    Option<Seq<char>>,
    Seq<char>,
    Seq<RawTagSchema>,
    BlockSchema,
) {
    (p.id@, p.signature.deep_view(), p.data@, p.anchor.deep_view(), p.owner@, p.tags@, p.block)
}

/// Whether the process row holds what the insert parameters `params`
/// wrote: each column its parameter's text, empty optional text read back as
/// absent.
pub open spec fn row_holds_process_parameters(row: ProcessQuerySchema, params: Seq<Seq<char>>) -> bool {
    &&& params.len() == 7
    &&& row.id@ == params[0]
    &&& row.signature.deep_view() == optional_text_read(params[1])
    &&& row.data@ == params[2]
    &&& row.anchor.deep_view() == optional_text_read(params[3])
    &&& row.owner@ == params[4]
    &&& row.tags@ == params[5]
    &&& row.block@ == params[6]
}

/// A saved process is found as it was saved: where the row holds what the
/// insert wrote and the tags and block read back from its JSON text are the
/// saved ones, the row passes the lookup's check (so `find_process_result`
/// gives `Ok` of `process_of_row`) and holds the saved process. A process
/// without id or owner is refused by the lookup, and a present but empty
/// signature or anchor is stored empty and read back as absent, so those
/// are left out.
pub proof fn saved_process_is_found(
    p: ProcessSchema,
    tags_json: Seq<char>,
    block_json: Seq<char>,
    row: ProcessQuerySchema,
    tags: Vec<RawTagSchema>,
    block: BlockSchema,
)
    requires
        p.id@.len() >= 1,
        p.owner@.len() >= 1,
        p.signature.deep_view() != Some(Seq::<char>::empty()),
        p.anchor.deep_view() != Some(Seq::<char>::empty()),
        row_holds_process_parameters(row, save_process_parameters(p, tags_json, block_json)),
        tags@ == p.tags@,
        block == p.block,
    ensures
        row.id@.len() >= 1 && row.owner@.len() >= 1,
        process_fields(process_of_row(row, tags, block)) == process_fields(p),
{
    if let Some(x) = p.signature.deep_view() {
        assert(x.len() > 0) by {
            if x.len() == 0 {
                assert(x =~= Seq::<char>::empty());
            }
        }
    }
    if let Some(x) = p.anchor.deep_view() {
        assert(x.len() > 0) by {
            if x.len() == 0 {
                assert(x =~= Seq::<char>::empty());
            }
        }
    }
}

} // verus!
