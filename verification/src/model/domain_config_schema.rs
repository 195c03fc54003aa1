//! The domain configuration: the settings as read from the environment, how
//! they are checked, and what they parse into.
use vstd::prelude::*;
use crate::config::StartConfigEnv;
use crate::errors::{field_violation, invalid_value, ConstraintViolation, ValidationError, ValidationErrorView, ViolationView};
use crate::model::positive_int_schema::{
    parse_positive_int_schema,
    positive_int_input_supported, positive_int_supported, spec_parse_positive_int_schema,
    trimmed_match, PositiveIntSchemaConstraint,
};
use crate::model::shared_validation::{
    INVALID_ARRAY, INVALID_CHAR_COUNT_MIN, INVALID_DIGITS_INTEGER, INVALID_URL, INVALID_WALLET,
};
use crate::model::truthy_schema::{
    boolean_error, parse_boolean_schema, spec_is_boolean, TruthyConstraint, DISABLE_PROCESS_CHECKPOINT_CREATION,
    INVALID_NOT_BOOLEAN,
};
use crate::strings::{none_or_empty, IsNoneOrEmpty};

verus! {

/// The domain settings as read from the environment, each one optional text.
#[allow(non_snake_case)]
pub struct StartDomainConfigSchema {
    /// The maximum Memory-Limit, in bytes, supported for ao processes, ie. '1000' or '1_000'.
    pub PROCESS_WASM_MEMORY_MAX_LIMIT: Option<String>,
    /// The maximum Compute-Limit, in bytes, supported for ao processes, ie. '1000' or '1_000'.
    pub PROCESS_WASM_COMPUTE_MAX_LIMIT: Option<String>,
    /// The url for the graphql server to be used by the CU to query for metadata from an Arweave Gateway, ie. https://arweave.net/graphql.
    pub GRAPHQL_URL: Option<String>,
    /// The url for the graphql server to be used by the CU to query for process Checkpoints.
    pub CHECKPOINT_GRAPHQL_URL: Option<String>,
    /// The url for the server that hosts the Arweave http API, ie. https://arweave.net.
    pub ARWEAVE_URL: Option<String>,
    /// The url of the uploader to use to upload Process Checkpoints to Arweave.
    pub UPLOADER_URL: Option<String>,
    /// The connection string to the database.
    pub DB_URL: Option<String>,
    /// The wallet for the CU.
    pub WALLET: Option<String>,
    /// The interval, in milliseconds, at which to log memory usage on this CU.
    pub MEM_MONITOR_INTERVAL: Option<String>,
    /// How long, in milliseconds, the CU waits before creating another Checkpoint for a process.
    pub PROCESS_CHECKPOINT_CREATION_THROTTLE: Option<String>,
    /// Whether to disable Process Checkpoint creation entirely.
    pub DISABLE_PROCESS_CHECKPOINT_CREATION: Option<String>,
    /// After evaluating this many messages, an evaluation stream creates a Checkpoint at its end.
    pub EAGER_CHECKPOINT_THRESHOLD: Option<String>,
    /// The number of workers to use for evaluating messages.
    pub WASM_EVALUATION_MAX_WORKERS: Option<String>,
    /// The maximum size of the in-memory cache used for wasm instances.
    pub WASM_INSTANCE_CACHE_MAX_SIZE: Option<String>,
    /// The maximum size of the in-memory cache used for Wasm modules.
    pub WASM_MODULE_CACHE_MAX_SIZE: Option<String>,
    /// The directory to place wasm binaries downloaded from arweave.
    pub WASM_BINARY_FILE_DIRECTORY: Option<String>,
    /// Process ids that should not use Checkpoints on Arweave.
    pub PROCESS_IGNORE_ARWEAVE_CHECKPOINTS: Option<String>,
    /// The directory to cache Checkpoints created on Arweave.
    pub PROCESS_CHECKPOINT_FILE_DIRECTORY: Option<String>,
    /// The maximum size, in bytes, of the cache of the latest memory evaluated for a process.
    pub PROCESS_MEMORY_CACHE_MAX_SIZE: Option<String>,
    /// The time to live of an entry in the process memory cache; it is reset on each access.
    pub PROCESS_MEMORY_CACHE_TTL: Option<String>,
    /// The interval at which the CU checkpoints all processes in its cache; 0 disables it.
    pub PROCESS_MEMORY_CACHE_CHECKPOINT_INTERVAL: Option<String>,
    /// How long, in milliseconds, the CU waits for an evaluation before answering that it is busy.
    pub BUSY_THRESHOLD: Option<String>,
    /// Process ids the CU refuses (a blacklist).
    pub RESTRICT_PROCESSES: Option<String>,
    /// Process ids the CU exclusively allows (a whitelist).
    pub ALLOW_PROCESSES: Option<String>,
}

impl StartDomainConfigSchema {
    /// The domain settings of the start environment.
    pub fn new(start_config_env: StartConfigEnv) -> (s: Self)
        ensures
            s.PROCESS_WASM_MEMORY_MAX_LIMIT == start_config_env.PROCESS_WASM_MEMORY_MAX_LIMIT,
            s.PROCESS_WASM_COMPUTE_MAX_LIMIT == start_config_env.PROCESS_WASM_COMPUTE_MAX_LIMIT,
            s.GRAPHQL_URL == start_config_env.GRAPHQL_URL,
            s.CHECKPOINT_GRAPHQL_URL == start_config_env.CHECKPOINT_GRAPHQL_URL,
            s.ARWEAVE_URL == start_config_env.ARWEAVE_URL,
            s.UPLOADER_URL == start_config_env.UPLOADER_URL,
            s.DB_URL == start_config_env.DB_URL,
            s.WALLET == start_config_env.WALLET,
            s.MEM_MONITOR_INTERVAL == start_config_env.MEM_MONITOR_INTERVAL,
            s.PROCESS_CHECKPOINT_CREATION_THROTTLE == start_config_env.PROCESS_CHECKPOINT_CREATION_THROTTLE,
            s.DISABLE_PROCESS_CHECKPOINT_CREATION == start_config_env.DISABLE_PROCESS_CHECKPOINT_CREATION,
            s.EAGER_CHECKPOINT_THRESHOLD == start_config_env.EAGER_CHECKPOINT_THRESHOLD,
            s.WASM_EVALUATION_MAX_WORKERS == start_config_env.WASM_EVALUATION_MAX_WORKERS,
            s.WASM_INSTANCE_CACHE_MAX_SIZE == start_config_env.WASM_INSTANCE_CACHE_MAX_SIZE,
            s.WASM_MODULE_CACHE_MAX_SIZE == start_config_env.WASM_MODULE_CACHE_MAX_SIZE,
            s.WASM_BINARY_FILE_DIRECTORY == start_config_env.WASM_BINARY_FILE_DIRECTORY,
            s.PROCESS_IGNORE_ARWEAVE_CHECKPOINTS == start_config_env.PROCESS_IGNORE_ARWEAVE_CHECKPOINTS,
            s.PROCESS_CHECKPOINT_FILE_DIRECTORY == start_config_env.PROCESS_CHECKPOINT_FILE_DIRECTORY,
            s.PROCESS_MEMORY_CACHE_MAX_SIZE == start_config_env.PROCESS_MEMORY_CACHE_MAX_SIZE,
            s.PROCESS_MEMORY_CACHE_TTL == start_config_env.PROCESS_MEMORY_CACHE_TTL,
            s.PROCESS_MEMORY_CACHE_CHECKPOINT_INTERVAL == start_config_env.PROCESS_MEMORY_CACHE_CHECKPOINT_INTERVAL,
            s.BUSY_THRESHOLD == start_config_env.BUSY_THRESHOLD,
            s.RESTRICT_PROCESSES == start_config_env.RESTRICT_PROCESSES,
            s.ALLOW_PROCESSES == start_config_env.ALLOW_PROCESSES,
    {
        StartDomainConfigSchema {
            PROCESS_WASM_MEMORY_MAX_LIMIT: start_config_env.PROCESS_WASM_MEMORY_MAX_LIMIT,
            PROCESS_WASM_COMPUTE_MAX_LIMIT: start_config_env.PROCESS_WASM_COMPUTE_MAX_LIMIT,
            GRAPHQL_URL: start_config_env.GRAPHQL_URL,
            CHECKPOINT_GRAPHQL_URL: start_config_env.CHECKPOINT_GRAPHQL_URL,
            ARWEAVE_URL: start_config_env.ARWEAVE_URL,
            UPLOADER_URL: start_config_env.UPLOADER_URL,
            DB_URL: start_config_env.DB_URL,
            WALLET: start_config_env.WALLET,
            MEM_MONITOR_INTERVAL: start_config_env.MEM_MONITOR_INTERVAL,
            PROCESS_CHECKPOINT_CREATION_THROTTLE: start_config_env.PROCESS_CHECKPOINT_CREATION_THROTTLE,
            DISABLE_PROCESS_CHECKPOINT_CREATION: start_config_env.DISABLE_PROCESS_CHECKPOINT_CREATION,
            EAGER_CHECKPOINT_THRESHOLD: start_config_env.EAGER_CHECKPOINT_THRESHOLD,
            WASM_EVALUATION_MAX_WORKERS: start_config_env.WASM_EVALUATION_MAX_WORKERS,
            WASM_INSTANCE_CACHE_MAX_SIZE: start_config_env.WASM_INSTANCE_CACHE_MAX_SIZE,
            WASM_MODULE_CACHE_MAX_SIZE: start_config_env.WASM_MODULE_CACHE_MAX_SIZE,
            WASM_BINARY_FILE_DIRECTORY: start_config_env.WASM_BINARY_FILE_DIRECTORY,
            PROCESS_IGNORE_ARWEAVE_CHECKPOINTS: start_config_env.PROCESS_IGNORE_ARWEAVE_CHECKPOINTS,
            PROCESS_CHECKPOINT_FILE_DIRECTORY: start_config_env.PROCESS_CHECKPOINT_FILE_DIRECTORY,
            PROCESS_MEMORY_CACHE_MAX_SIZE: start_config_env.PROCESS_MEMORY_CACHE_MAX_SIZE,
            PROCESS_MEMORY_CACHE_TTL: start_config_env.PROCESS_MEMORY_CACHE_TTL,
            PROCESS_MEMORY_CACHE_CHECKPOINT_INTERVAL: start_config_env.PROCESS_MEMORY_CACHE_CHECKPOINT_INTERVAL,
            BUSY_THRESHOLD: start_config_env.BUSY_THRESHOLD,
            RESTRICT_PROCESSES: start_config_env.RESTRICT_PROCESSES,
            ALLOW_PROCESSES: start_config_env.ALLOW_PROCESSES,
        }
    }

}

/// A copy of an optional setting.
pub fn clone_setting(v: &Option<String>) -> (r: Option<String>)
    ensures
        r == *v,
{
    match v {
        Some(s) => Some(s.clone()),
        None => None,
    }
}

impl Clone for StartDomainConfigSchema {
    fn clone(&self) -> (r: Self)
        ensures
            r == *self,
    {
        StartDomainConfigSchema {
            PROCESS_WASM_MEMORY_MAX_LIMIT: clone_setting(&self.PROCESS_WASM_MEMORY_MAX_LIMIT),
            PROCESS_WASM_COMPUTE_MAX_LIMIT: clone_setting(&self.PROCESS_WASM_COMPUTE_MAX_LIMIT),
            GRAPHQL_URL: clone_setting(&self.GRAPHQL_URL),
            CHECKPOINT_GRAPHQL_URL: clone_setting(&self.CHECKPOINT_GRAPHQL_URL),
            ARWEAVE_URL: clone_setting(&self.ARWEAVE_URL),
            UPLOADER_URL: clone_setting(&self.UPLOADER_URL),
            DB_URL: clone_setting(&self.DB_URL),
            WALLET: clone_setting(&self.WALLET),
            MEM_MONITOR_INTERVAL: clone_setting(&self.MEM_MONITOR_INTERVAL),
            PROCESS_CHECKPOINT_CREATION_THROTTLE: clone_setting(&self.PROCESS_CHECKPOINT_CREATION_THROTTLE),
            DISABLE_PROCESS_CHECKPOINT_CREATION: clone_setting(&self.DISABLE_PROCESS_CHECKPOINT_CREATION),
            EAGER_CHECKPOINT_THRESHOLD: clone_setting(&self.EAGER_CHECKPOINT_THRESHOLD),
            WASM_EVALUATION_MAX_WORKERS: clone_setting(&self.WASM_EVALUATION_MAX_WORKERS),
            WASM_INSTANCE_CACHE_MAX_SIZE: clone_setting(&self.WASM_INSTANCE_CACHE_MAX_SIZE),
            WASM_MODULE_CACHE_MAX_SIZE: clone_setting(&self.WASM_MODULE_CACHE_MAX_SIZE),
            WASM_BINARY_FILE_DIRECTORY: clone_setting(&self.WASM_BINARY_FILE_DIRECTORY),
            PROCESS_IGNORE_ARWEAVE_CHECKPOINTS: clone_setting(&self.PROCESS_IGNORE_ARWEAVE_CHECKPOINTS),
            PROCESS_CHECKPOINT_FILE_DIRECTORY: clone_setting(&self.PROCESS_CHECKPOINT_FILE_DIRECTORY),
            PROCESS_MEMORY_CACHE_MAX_SIZE: clone_setting(&self.PROCESS_MEMORY_CACHE_MAX_SIZE),
            PROCESS_MEMORY_CACHE_TTL: clone_setting(&self.PROCESS_MEMORY_CACHE_TTL),
            PROCESS_MEMORY_CACHE_CHECKPOINT_INTERVAL: clone_setting(&self.PROCESS_MEMORY_CACHE_CHECKPOINT_INTERVAL),
            BUSY_THRESHOLD: clone_setting(&self.BUSY_THRESHOLD),
            RESTRICT_PROCESSES: clone_setting(&self.RESTRICT_PROCESSES),
            ALLOW_PROCESSES: clone_setting(&self.ALLOW_PROCESSES),
        }
    }
}

/// The parsed domain settings.
#[derive(Debug)]
#[allow(non_snake_case)]
pub struct DomainConfigSchema {
    /// The maximum Memory-Limit, in bytes, supported for ao processes, ie. '1000' or '1_000'.
    pub PROCESS_WASM_MEMORY_MAX_LIMIT: i64,
    /// The maximum Compute-Limit, in bytes, supported for ao processes, ie. '1000' or '1_000'.
    pub PROCESS_WASM_COMPUTE_MAX_LIMIT: i64,
    /// The url for the graphql server to be used by the CU to query for metadata from an Arweave Gateway, ie. https://arweave.net/graphql.
    pub GRAPHQL_URL: String,
    /// The url for the graphql server to be used by the CU to query for process Checkpoints.
    pub CHECKPOINT_GRAPHQL_URL: String,
    /// The url for the server that hosts the Arweave http API, ie. https://arweave.net.
    pub ARWEAVE_URL: String,
    /// The url of the uploader to use to upload Process Checkpoints to Arweave.
    pub UPLOADER_URL: String,
    /// The connection string to the database.
    pub DB_URL: String,
    /// The wallet for the CU.
    pub WALLET: String,
    /// The interval, in milliseconds, at which to log memory usage on this CU.
    pub MEM_MONITOR_INTERVAL: i64,
    /// How long, in milliseconds, the CU waits before creating another Checkpoint for a process.
    pub PROCESS_CHECKPOINT_CREATION_THROTTLE: i64,
    /// Whether to disable Process Checkpoint creation entirely.
    pub DISABLE_PROCESS_CHECKPOINT_CREATION: bool,
    /// After evaluating this many messages, an evaluation stream creates a Checkpoint at its end.
    pub EAGER_CHECKPOINT_THRESHOLD: i64,
    /// The number of workers to use for evaluating messages.
    pub WASM_EVALUATION_MAX_WORKERS: i64,
    /// The maximum size of the in-memory cache used for wasm instances.
    pub WASM_INSTANCE_CACHE_MAX_SIZE: i64,
    /// The maximum size of the in-memory cache used for Wasm modules.
    pub WASM_MODULE_CACHE_MAX_SIZE: i64,
    /// The directory to place wasm binaries downloaded from arweave.
    pub WASM_BINARY_FILE_DIRECTORY: String,
    /// Process ids that should not use Checkpoints on Arweave.
    pub PROCESS_IGNORE_ARWEAVE_CHECKPOINTS: Vec<String>,
    /// The directory to cache Checkpoints created on Arweave.
    pub PROCESS_CHECKPOINT_FILE_DIRECTORY: String,
    /// The maximum size, in bytes, of the cache of the latest memory evaluated for a process.
    pub PROCESS_MEMORY_CACHE_MAX_SIZE: i64,
    /// The time to live of an entry in the process memory cache; it is reset on each access.
    pub PROCESS_MEMORY_CACHE_TTL: i64,
    /// The interval at which the CU checkpoints all processes in its cache; 0 disables it.
    pub PROCESS_MEMORY_CACHE_CHECKPOINT_INTERVAL: i64,
    /// How long, in milliseconds, the CU waits for an evaluation before answering that it is busy.
    pub BUSY_THRESHOLD: i64,
    /// Process ids the CU refuses (a blacklist).
    pub RESTRICT_PROCESSES: Vec<String>,
    /// Process ids the CU exclusively allows (a whitelist).
    pub ALLOW_PROCESSES: Vec<String>,
}

/// The parsed domain settings, text as character sequences.
#[verifier::ext_equal]
#[allow(non_snake_case)]
pub struct DomainConfigSchemaView {
    pub PROCESS_WASM_MEMORY_MAX_LIMIT: i64,
    pub PROCESS_WASM_COMPUTE_MAX_LIMIT: i64,
    pub GRAPHQL_URL: Seq<char>,
    pub CHECKPOINT_GRAPHQL_URL: Seq<char>,
    pub ARWEAVE_URL: Seq<char>,
    pub UPLOADER_URL: Seq<char>,
    pub DB_URL: Seq<char>,
    pub WALLET: Seq<char>,
    pub MEM_MONITOR_INTERVAL: i64,
    pub PROCESS_CHECKPOINT_CREATION_THROTTLE: i64,
    pub DISABLE_PROCESS_CHECKPOINT_CREATION: bool,
    pub EAGER_CHECKPOINT_THRESHOLD: i64,
    pub WASM_EVALUATION_MAX_WORKERS: i64,
    pub WASM_INSTANCE_CACHE_MAX_SIZE: i64,
    pub WASM_MODULE_CACHE_MAX_SIZE: i64,
    pub WASM_BINARY_FILE_DIRECTORY: Seq<char>,
    pub PROCESS_IGNORE_ARWEAVE_CHECKPOINTS: Seq<Seq<char>>,
    pub PROCESS_CHECKPOINT_FILE_DIRECTORY: Seq<char>,
    pub PROCESS_MEMORY_CACHE_MAX_SIZE: i64,
    pub PROCESS_MEMORY_CACHE_TTL: i64,
    pub PROCESS_MEMORY_CACHE_CHECKPOINT_INTERVAL: i64,
    pub BUSY_THRESHOLD: i64,
    pub RESTRICT_PROCESSES: Seq<Seq<char>>,
    pub ALLOW_PROCESSES: Seq<Seq<char>>,
}

impl View for DomainConfigSchema {
    type V = DomainConfigSchemaView;

    open spec fn view(&self) -> DomainConfigSchemaView {
        DomainConfigSchemaView {
            PROCESS_WASM_MEMORY_MAX_LIMIT: self.PROCESS_WASM_MEMORY_MAX_LIMIT,
            PROCESS_WASM_COMPUTE_MAX_LIMIT: self.PROCESS_WASM_COMPUTE_MAX_LIMIT,
            GRAPHQL_URL: self.GRAPHQL_URL@,
            CHECKPOINT_GRAPHQL_URL: self.CHECKPOINT_GRAPHQL_URL@,
            ARWEAVE_URL: self.ARWEAVE_URL@,
            UPLOADER_URL: self.UPLOADER_URL@,
            DB_URL: self.DB_URL@,
            WALLET: self.WALLET@,
            MEM_MONITOR_INTERVAL: self.MEM_MONITOR_INTERVAL,
            PROCESS_CHECKPOINT_CREATION_THROTTLE: self.PROCESS_CHECKPOINT_CREATION_THROTTLE,
            DISABLE_PROCESS_CHECKPOINT_CREATION: self.DISABLE_PROCESS_CHECKPOINT_CREATION,
            EAGER_CHECKPOINT_THRESHOLD: self.EAGER_CHECKPOINT_THRESHOLD,
            WASM_EVALUATION_MAX_WORKERS: self.WASM_EVALUATION_MAX_WORKERS,
            WASM_INSTANCE_CACHE_MAX_SIZE: self.WASM_INSTANCE_CACHE_MAX_SIZE,
            WASM_MODULE_CACHE_MAX_SIZE: self.WASM_MODULE_CACHE_MAX_SIZE,
            WASM_BINARY_FILE_DIRECTORY: self.WASM_BINARY_FILE_DIRECTORY@,
            PROCESS_IGNORE_ARWEAVE_CHECKPOINTS: self.PROCESS_IGNORE_ARWEAVE_CHECKPOINTS.deep_view(),
            PROCESS_CHECKPOINT_FILE_DIRECTORY: self.PROCESS_CHECKPOINT_FILE_DIRECTORY@,
            PROCESS_MEMORY_CACHE_MAX_SIZE: self.PROCESS_MEMORY_CACHE_MAX_SIZE,
            PROCESS_MEMORY_CACHE_TTL: self.PROCESS_MEMORY_CACHE_TTL,
            PROCESS_MEMORY_CACHE_CHECKPOINT_INTERVAL: self.PROCESS_MEMORY_CACHE_CHECKPOINT_INTERVAL,
            BUSY_THRESHOLD: self.BUSY_THRESHOLD,
            RESTRICT_PROCESSES: self.RESTRICT_PROCESSES.deep_view(),
            ALLOW_PROCESSES: self.ALLOW_PROCESSES.deep_view(),
        }
    }
}

/// The settings before any is parsed: zero, false, and empty.
pub open spec fn default_domain_config() -> DomainConfigSchemaView {
    DomainConfigSchemaView {
        PROCESS_WASM_MEMORY_MAX_LIMIT: 0,
        PROCESS_WASM_COMPUTE_MAX_LIMIT: 0,
        GRAPHQL_URL: Seq::empty(),
        CHECKPOINT_GRAPHQL_URL: Seq::empty(),
        ARWEAVE_URL: Seq::empty(),
        UPLOADER_URL: Seq::empty(),
        DB_URL: Seq::empty(),
        WALLET: Seq::empty(),
        MEM_MONITOR_INTERVAL: 0,
        PROCESS_CHECKPOINT_CREATION_THROTTLE: 0,
        DISABLE_PROCESS_CHECKPOINT_CREATION: false,
        EAGER_CHECKPOINT_THRESHOLD: 0,
        WASM_EVALUATION_MAX_WORKERS: 0,
        WASM_INSTANCE_CACHE_MAX_SIZE: 0,
        WASM_MODULE_CACHE_MAX_SIZE: 0,
        WASM_BINARY_FILE_DIRECTORY: Seq::empty(),
        PROCESS_IGNORE_ARWEAVE_CHECKPOINTS: Seq::empty(),
        PROCESS_CHECKPOINT_FILE_DIRECTORY: Seq::empty(),
        PROCESS_MEMORY_CACHE_MAX_SIZE: 0,
        PROCESS_MEMORY_CACHE_TTL: 0,
        PROCESS_MEMORY_CACHE_CHECKPOINT_INTERVAL: 0,
        BUSY_THRESHOLD: 0,
        RESTRICT_PROCESSES: Seq::empty(),
        ALLOW_PROCESSES: Seq::empty(),
    }
}

impl Default for DomainConfigSchema {
    fn default() -> (d: Self)
        ensures
            d@ == default_domain_config(),
    {
        let d = DomainConfigSchema {
            PROCESS_WASM_MEMORY_MAX_LIMIT: 0,
            PROCESS_WASM_COMPUTE_MAX_LIMIT: 0,
            GRAPHQL_URL: String::new(),
            CHECKPOINT_GRAPHQL_URL: String::new(),
            ARWEAVE_URL: String::new(),
            UPLOADER_URL: String::new(),
            DB_URL: String::new(),
            WALLET: String::new(),
            MEM_MONITOR_INTERVAL: 0,
            PROCESS_CHECKPOINT_CREATION_THROTTLE: 0,
            DISABLE_PROCESS_CHECKPOINT_CREATION: false,
            EAGER_CHECKPOINT_THRESHOLD: 0,
            WASM_EVALUATION_MAX_WORKERS: 0,
            WASM_INSTANCE_CACHE_MAX_SIZE: 0,
            WASM_MODULE_CACHE_MAX_SIZE: 0,
            WASM_BINARY_FILE_DIRECTORY: String::new(),
            PROCESS_IGNORE_ARWEAVE_CHECKPOINTS: Vec::new(),
            PROCESS_CHECKPOINT_FILE_DIRECTORY: String::new(),
            PROCESS_MEMORY_CACHE_MAX_SIZE: 0,
            PROCESS_MEMORY_CACHE_TTL: 0,
            PROCESS_MEMORY_CACHE_CHECKPOINT_INTERVAL: 0,
            BUSY_THRESHOLD: 0,
            RESTRICT_PROCESSES: Vec::new(),
            ALLOW_PROCESSES: Vec::new(),
        };
        assert(d@ =~= default_domain_config());
        d
    }
}

/// The outcomes of the parsers of the URL, database URL, wallet, directory
/// and process-id list settings, which the caller runs on the start
/// settings and hands in.
#[allow(non_snake_case)]
pub struct ParsedFields {
    pub GRAPHQL_URL: Result<String, ValidationError>,
    pub CHECKPOINT_GRAPHQL_URL: Result<String, ValidationError>,
    pub ARWEAVE_URL: Result<String, ValidationError>,
    pub UPLOADER_URL: Result<String, ValidationError>,
    pub DB_URL: Result<String, ValidationError>,
    pub WALLET: Result<String, ValidationError>,
    pub WASM_BINARY_FILE_DIRECTORY: Result<String, ValidationError>,
    pub PROCESS_IGNORE_ARWEAVE_CHECKPOINTS: Result<Vec<String>, ValidationError>,
    pub PROCESS_CHECKPOINT_FILE_DIRECTORY: Result<String, ValidationError>,
    pub RESTRICT_PROCESSES: Result<Vec<String>, ValidationError>,
    pub ALLOW_PROCESSES: Result<Vec<String>, ValidationError>,
}

/// The outcome of a text parser, text as characters.
pub open spec fn text_outcome(r: Result<String, ValidationError>) -> Result<Seq<char>, ValidationErrorView> {
    match r {
        Ok(s) => Ok(s@),
        Err(e) => Err(e@),
    }
}

/// The outcome of a list parser, text as characters.
pub open spec fn list_outcome(r: Result<Vec<String>, ValidationError>) -> Result<
    Seq<Seq<char>>,
    ValidationErrorView,
> {
    match r {
        Ok(v) => Ok(v.deep_view()),
        Err(e) => Err(e@),
    }
}

/// The outcome of parsing the checkpoint-creation switch: whether to
/// disable checkpoint creation.
pub open spec fn switch_outcome(val: Option<Seq<char>>) -> Result<bool, ValidationErrorView> {
    if spec_is_boolean(val) {
        Ok(val == Some("true"@))
    } else {
        Err(boolean_error(val, DISABLE_PROCESS_CHECKPOINT_CREATION@))
    }
}

/// Whether an executed parse agrees with its specified outcome.
pub open spec fn parse_agrees(
    r: Result<DomainConfigSchema, ValidationError>,
    s: Result<DomainConfigSchemaView, ValidationErrorView>,
) -> bool {
    match (r, s) {
        (Ok(c), Ok(v)) => c@ == v,
        (Err(e), Err(f)) => e@ == f,
        _ => false,
    }
}

/// The parsed settings: each setting in turn, the first that fails giving
/// the error. Numeric settings parse as positive integers (`-1` where
/// absent), the switch as a boolean, and the other settings take what their
/// parsers gave.
#[verifier::opaque]
pub open spec fn spec_parse(s: StartDomainConfigSchema, p: ParsedFields) -> Result<
    DomainConfigSchemaView,
    ValidationErrorView,
> {
    let r0 = spec_parse_positive_int_schema(s.PROCESS_WASM_MEMORY_MAX_LIMIT.deep_view(), "PROCESS_WASM_MEMORY_MAX_LIMIT"@);
    let r1 = spec_parse_positive_int_schema(s.PROCESS_WASM_COMPUTE_MAX_LIMIT.deep_view(), "PROCESS_WASM_COMPUTE_MAX_LIMIT"@);
    let r2 = text_outcome(p.GRAPHQL_URL);
    let r3 = text_outcome(p.CHECKPOINT_GRAPHQL_URL);
    let r4 = text_outcome(p.UPLOADER_URL);
    let r5 = text_outcome(p.ARWEAVE_URL);
    let r6 = text_outcome(p.DB_URL);
    let r7 = text_outcome(p.WALLET);
    let r8 = spec_parse_positive_int_schema(s.MEM_MONITOR_INTERVAL.deep_view(), "MEM_MONITOR_INTERVAL"@);
    let r9 = spec_parse_positive_int_schema(s.PROCESS_CHECKPOINT_CREATION_THROTTLE.deep_view(), "PROCESS_CHECKPOINT_CREATION_THROTTLE"@);
    let r10 = switch_outcome(s.DISABLE_PROCESS_CHECKPOINT_CREATION.deep_view());
    let r11 = spec_parse_positive_int_schema(s.EAGER_CHECKPOINT_THRESHOLD.deep_view(), "EAGER_CHECKPOINT_THRESHOLD"@);
    let r12 = spec_parse_positive_int_schema(s.WASM_EVALUATION_MAX_WORKERS.deep_view(), "WASM_EVALUATION_MAX_WORKERS"@);
    let r13 = spec_parse_positive_int_schema(s.WASM_INSTANCE_CACHE_MAX_SIZE.deep_view(), "WASM_INSTANCE_CACHE_MAX_SIZE"@);
    let r14 = spec_parse_positive_int_schema(s.WASM_MODULE_CACHE_MAX_SIZE.deep_view(), "WASM_MODULE_CACHE_MAX_SIZE"@);
    let r15 = text_outcome(p.WASM_BINARY_FILE_DIRECTORY);
    let r16 = list_outcome(p.PROCESS_IGNORE_ARWEAVE_CHECKPOINTS);
    let r17 = text_outcome(p.PROCESS_CHECKPOINT_FILE_DIRECTORY);
    let r18 = spec_parse_positive_int_schema(s.PROCESS_MEMORY_CACHE_MAX_SIZE.deep_view(), "PROCESS_MEMORY_CACHE_MAX_SIZE"@);
    let r19 = spec_parse_positive_int_schema(s.PROCESS_MEMORY_CACHE_TTL.deep_view(), "PROCESS_MEMORY_CACHE_TTL"@);
    let r20 = spec_parse_positive_int_schema(s.PROCESS_MEMORY_CACHE_CHECKPOINT_INTERVAL.deep_view(), "PROCESS_MEMORY_CACHE_CHECKPOINT_INTERVAL"@);
    let r21 = spec_parse_positive_int_schema(s.BUSY_THRESHOLD.deep_view(), "BUSY_THRESHOLD"@);
    let r22 = list_outcome(p.RESTRICT_PROCESSES);
    let r23 = list_outcome(p.ALLOW_PROCESSES);
    if r0 is Err {
        Err(r0->Err_0)
    } else if r1 is Err {
        Err(r1->Err_0)
    } else if r2 is Err {
        Err(r2->Err_0)
    } else if r3 is Err {
        Err(r3->Err_0)
    } else if r4 is Err {
        Err(r4->Err_0)
    } else if r5 is Err {
        Err(r5->Err_0)
    } else if r6 is Err {
        Err(r6->Err_0)
    } else if r7 is Err {
        Err(r7->Err_0)
    } else if r8 is Err {
        Err(r8->Err_0)
    } else if r9 is Err {
        Err(r9->Err_0)
    } else if r10 is Err {
        Err(r10->Err_0)
    } else if r11 is Err {
        Err(r11->Err_0)
    } else if r12 is Err {
        Err(r12->Err_0)
    } else if r13 is Err {
        Err(r13->Err_0)
    } else if r14 is Err {
        Err(r14->Err_0)
    } else if r15 is Err {
        Err(r15->Err_0)
    } else if r16 is Err {
        Err(r16->Err_0)
    } else if r17 is Err {
        Err(r17->Err_0)
    } else if r18 is Err {
        Err(r18->Err_0)
    } else if r19 is Err {
        Err(r19->Err_0)
    } else if r20 is Err {
        Err(r20->Err_0)
    } else if r21 is Err {
        Err(r21->Err_0)
    } else if r22 is Err {
        Err(r22->Err_0)
    } else if r23 is Err {
        Err(r23->Err_0)
    } else {
        Ok(
            DomainConfigSchemaView {
                PROCESS_WASM_MEMORY_MAX_LIMIT: r0->Ok_0,
                PROCESS_WASM_COMPUTE_MAX_LIMIT: r1->Ok_0,
                GRAPHQL_URL: r2->Ok_0,
                CHECKPOINT_GRAPHQL_URL: r3->Ok_0,
                ARWEAVE_URL: r5->Ok_0,
                UPLOADER_URL: r4->Ok_0,
                DB_URL: r6->Ok_0,
                WALLET: r7->Ok_0,
                MEM_MONITOR_INTERVAL: r8->Ok_0,
                PROCESS_CHECKPOINT_CREATION_THROTTLE: r9->Ok_0,
                DISABLE_PROCESS_CHECKPOINT_CREATION: r10->Ok_0,
                EAGER_CHECKPOINT_THRESHOLD: r11->Ok_0,
                WASM_EVALUATION_MAX_WORKERS: r12->Ok_0,
                WASM_INSTANCE_CACHE_MAX_SIZE: r13->Ok_0,
                WASM_MODULE_CACHE_MAX_SIZE: r14->Ok_0,
                WASM_BINARY_FILE_DIRECTORY: r15->Ok_0,
                PROCESS_IGNORE_ARWEAVE_CHECKPOINTS: r16->Ok_0,
                PROCESS_CHECKPOINT_FILE_DIRECTORY: r17->Ok_0,
                PROCESS_MEMORY_CACHE_MAX_SIZE: r18->Ok_0,
                PROCESS_MEMORY_CACHE_TTL: r19->Ok_0,
                PROCESS_MEMORY_CACHE_CHECKPOINT_INTERVAL: r20->Ok_0,
                BUSY_THRESHOLD: r21->Ok_0,
                RESTRICT_PROCESSES: r22->Ok_0,
                ALLOW_PROCESSES: r23->Ok_0,
            },
        )
    }
}

/// Whether parsing never meets a numeric setting that its parser cannot
/// handle (see `positive_int_supported`): every numeric setting reached
/// before the first failing setting is supported.
#[verifier::opaque]
pub open spec fn parse_reachable_supported(s: StartDomainConfigSchema, p: ParsedFields) -> bool {
    let r0 = spec_parse_positive_int_schema(s.PROCESS_WASM_MEMORY_MAX_LIMIT.deep_view(), "PROCESS_WASM_MEMORY_MAX_LIMIT"@);
    let r1 = spec_parse_positive_int_schema(s.PROCESS_WASM_COMPUTE_MAX_LIMIT.deep_view(), "PROCESS_WASM_COMPUTE_MAX_LIMIT"@);
    let r2 = text_outcome(p.GRAPHQL_URL);
    let r3 = text_outcome(p.CHECKPOINT_GRAPHQL_URL);
    let r4 = text_outcome(p.UPLOADER_URL);
    let r5 = text_outcome(p.ARWEAVE_URL);
    let r6 = text_outcome(p.DB_URL);
    let r7 = text_outcome(p.WALLET);
    let r8 = spec_parse_positive_int_schema(s.MEM_MONITOR_INTERVAL.deep_view(), "MEM_MONITOR_INTERVAL"@);
    let r9 = spec_parse_positive_int_schema(s.PROCESS_CHECKPOINT_CREATION_THROTTLE.deep_view(), "PROCESS_CHECKPOINT_CREATION_THROTTLE"@);
    let r10 = switch_outcome(s.DISABLE_PROCESS_CHECKPOINT_CREATION.deep_view());
    let r11 = spec_parse_positive_int_schema(s.EAGER_CHECKPOINT_THRESHOLD.deep_view(), "EAGER_CHECKPOINT_THRESHOLD"@);
    let r12 = spec_parse_positive_int_schema(s.WASM_EVALUATION_MAX_WORKERS.deep_view(), "WASM_EVALUATION_MAX_WORKERS"@);
    let r13 = spec_parse_positive_int_schema(s.WASM_INSTANCE_CACHE_MAX_SIZE.deep_view(), "WASM_INSTANCE_CACHE_MAX_SIZE"@);
    let r14 = spec_parse_positive_int_schema(s.WASM_MODULE_CACHE_MAX_SIZE.deep_view(), "WASM_MODULE_CACHE_MAX_SIZE"@);
    let r15 = text_outcome(p.WASM_BINARY_FILE_DIRECTORY);
    let r16 = list_outcome(p.PROCESS_IGNORE_ARWEAVE_CHECKPOINTS);
    let r17 = text_outcome(p.PROCESS_CHECKPOINT_FILE_DIRECTORY);
    let r18 = spec_parse_positive_int_schema(s.PROCESS_MEMORY_CACHE_MAX_SIZE.deep_view(), "PROCESS_MEMORY_CACHE_MAX_SIZE"@);
    let r19 = spec_parse_positive_int_schema(s.PROCESS_MEMORY_CACHE_TTL.deep_view(), "PROCESS_MEMORY_CACHE_TTL"@);
    let r20 = spec_parse_positive_int_schema(s.PROCESS_MEMORY_CACHE_CHECKPOINT_INTERVAL.deep_view(), "PROCESS_MEMORY_CACHE_CHECKPOINT_INTERVAL"@);
    let r21 = spec_parse_positive_int_schema(s.BUSY_THRESHOLD.deep_view(), "BUSY_THRESHOLD"@);
    let r22 = list_outcome(p.RESTRICT_PROCESSES);
    let r23 = list_outcome(p.ALLOW_PROCESSES);
    &&& positive_int_supported(s.PROCESS_WASM_MEMORY_MAX_LIMIT.deep_view())
    &&& (r0 is Ok) ==> positive_int_supported(s.PROCESS_WASM_COMPUTE_MAX_LIMIT.deep_view())
    &&& (r0 is Ok && r1 is Ok && r2 is Ok && r3 is Ok && r4 is Ok && r5 is Ok && r6 is Ok && r7 is Ok) ==> positive_int_supported(s.MEM_MONITOR_INTERVAL.deep_view())
    &&& (r0 is Ok && r1 is Ok && r2 is Ok && r3 is Ok && r4 is Ok && r5 is Ok && r6 is Ok && r7 is Ok && r8 is Ok) ==> positive_int_supported(s.PROCESS_CHECKPOINT_CREATION_THROTTLE.deep_view())
    &&& (r0 is Ok && r1 is Ok && r2 is Ok && r3 is Ok && r4 is Ok && r5 is Ok && r6 is Ok && r7 is Ok && r8 is Ok && r9 is Ok && r10 is Ok) ==> positive_int_supported(s.EAGER_CHECKPOINT_THRESHOLD.deep_view())
    &&& (r0 is Ok && r1 is Ok && r2 is Ok && r3 is Ok && r4 is Ok && r5 is Ok && r6 is Ok && r7 is Ok && r8 is Ok && r9 is Ok && r10 is Ok && r11 is Ok) ==> positive_int_supported(s.WASM_EVALUATION_MAX_WORKERS.deep_view())
    &&& (r0 is Ok && r1 is Ok && r2 is Ok && r3 is Ok && r4 is Ok && r5 is Ok && r6 is Ok && r7 is Ok && r8 is Ok && r9 is Ok && r10 is Ok && r11 is Ok && r12 is Ok) ==> positive_int_supported(s.WASM_INSTANCE_CACHE_MAX_SIZE.deep_view())
    &&& (r0 is Ok && r1 is Ok && r2 is Ok && r3 is Ok && r4 is Ok && r5 is Ok && r6 is Ok && r7 is Ok && r8 is Ok && r9 is Ok && r10 is Ok && r11 is Ok && r12 is Ok && r13 is Ok) ==> positive_int_supported(s.WASM_MODULE_CACHE_MAX_SIZE.deep_view())
    &&& (r0 is Ok && r1 is Ok && r2 is Ok && r3 is Ok && r4 is Ok && r5 is Ok && r6 is Ok && r7 is Ok && r8 is Ok && r9 is Ok && r10 is Ok && r11 is Ok && r12 is Ok && r13 is Ok && r14 is Ok && r15 is Ok && r16 is Ok && r17 is Ok) ==> positive_int_supported(s.PROCESS_MEMORY_CACHE_MAX_SIZE.deep_view())
    &&& (r0 is Ok && r1 is Ok && r2 is Ok && r3 is Ok && r4 is Ok && r5 is Ok && r6 is Ok && r7 is Ok && r8 is Ok && r9 is Ok && r10 is Ok && r11 is Ok && r12 is Ok && r13 is Ok && r14 is Ok && r15 is Ok && r16 is Ok && r17 is Ok && r18 is Ok) ==> positive_int_supported(s.PROCESS_MEMORY_CACHE_TTL.deep_view())
    &&& (r0 is Ok && r1 is Ok && r2 is Ok && r3 is Ok && r4 is Ok && r5 is Ok && r6 is Ok && r7 is Ok && r8 is Ok && r9 is Ok && r10 is Ok && r11 is Ok && r12 is Ok && r13 is Ok && r14 is Ok && r15 is Ok && r16 is Ok && r17 is Ok && r18 is Ok && r19 is Ok) ==> positive_int_supported(s.PROCESS_MEMORY_CACHE_CHECKPOINT_INTERVAL.deep_view())
    &&& (r0 is Ok && r1 is Ok && r2 is Ok && r3 is Ok && r4 is Ok && r5 is Ok && r6 is Ok && r7 is Ok && r8 is Ok && r9 is Ok && r10 is Ok && r11 is Ok && r12 is Ok && r13 is Ok && r14 is Ok && r15 is Ok && r16 is Ok && r17 is Ok && r18 is Ok && r19 is Ok && r20 is Ok) ==> positive_int_supported(s.BUSY_THRESHOLD.deep_view())
}

/// Each parsed setting is what its own parser gave for it: the numeric
/// settings their positive-int values, the switch whether it reads `true`,
/// and the other settings the values their parsers gave.
pub proof fn parsed_settings_come_from_their_parsers(s: StartDomainConfigSchema, p: ParsedFields)
    ensures
        spec_parse(s, p) matches Ok(v) ==> {
            &&& spec_parse_positive_int_schema(s.PROCESS_WASM_MEMORY_MAX_LIMIT.deep_view(), "PROCESS_WASM_MEMORY_MAX_LIMIT"@) == Ok::<i64, ValidationErrorView>(v.PROCESS_WASM_MEMORY_MAX_LIMIT)
            &&& spec_parse_positive_int_schema(s.PROCESS_WASM_COMPUTE_MAX_LIMIT.deep_view(), "PROCESS_WASM_COMPUTE_MAX_LIMIT"@) == Ok::<i64, ValidationErrorView>(v.PROCESS_WASM_COMPUTE_MAX_LIMIT)
            &&& (p.GRAPHQL_URL matches Ok(x) && v.GRAPHQL_URL == x@)
            &&& (p.CHECKPOINT_GRAPHQL_URL matches Ok(x) && v.CHECKPOINT_GRAPHQL_URL == x@)
            &&& (p.ARWEAVE_URL matches Ok(x) && v.ARWEAVE_URL == x@)
            &&& (p.UPLOADER_URL matches Ok(x) && v.UPLOADER_URL == x@)
            &&& (p.DB_URL matches Ok(x) && v.DB_URL == x@)
            &&& (p.WALLET matches Ok(x) && v.WALLET == x@)
            &&& spec_parse_positive_int_schema(s.MEM_MONITOR_INTERVAL.deep_view(), "MEM_MONITOR_INTERVAL"@) == Ok::<i64, ValidationErrorView>(v.MEM_MONITOR_INTERVAL)
            &&& spec_parse_positive_int_schema(s.PROCESS_CHECKPOINT_CREATION_THROTTLE.deep_view(), "PROCESS_CHECKPOINT_CREATION_THROTTLE"@) == Ok::<i64, ValidationErrorView>(v.PROCESS_CHECKPOINT_CREATION_THROTTLE)
            &&& v.DISABLE_PROCESS_CHECKPOINT_CREATION == (s.DISABLE_PROCESS_CHECKPOINT_CREATION.deep_view() == Some("true"@))
            &&& spec_parse_positive_int_schema(s.EAGER_CHECKPOINT_THRESHOLD.deep_view(), "EAGER_CHECKPOINT_THRESHOLD"@) == Ok::<i64, ValidationErrorView>(v.EAGER_CHECKPOINT_THRESHOLD)
            &&& spec_parse_positive_int_schema(s.WASM_EVALUATION_MAX_WORKERS.deep_view(), "WASM_EVALUATION_MAX_WORKERS"@) == Ok::<i64, ValidationErrorView>(v.WASM_EVALUATION_MAX_WORKERS)
            &&& spec_parse_positive_int_schema(s.WASM_INSTANCE_CACHE_MAX_SIZE.deep_view(), "WASM_INSTANCE_CACHE_MAX_SIZE"@) == Ok::<i64, ValidationErrorView>(v.WASM_INSTANCE_CACHE_MAX_SIZE)
            &&& spec_parse_positive_int_schema(s.WASM_MODULE_CACHE_MAX_SIZE.deep_view(), "WASM_MODULE_CACHE_MAX_SIZE"@) == Ok::<i64, ValidationErrorView>(v.WASM_MODULE_CACHE_MAX_SIZE)
            &&& (p.WASM_BINARY_FILE_DIRECTORY matches Ok(x) && v.WASM_BINARY_FILE_DIRECTORY == x@)
            &&& (p.PROCESS_IGNORE_ARWEAVE_CHECKPOINTS matches Ok(x) && v.PROCESS_IGNORE_ARWEAVE_CHECKPOINTS == x.deep_view())
            &&& (p.PROCESS_CHECKPOINT_FILE_DIRECTORY matches Ok(x) && v.PROCESS_CHECKPOINT_FILE_DIRECTORY == x@)
            &&& spec_parse_positive_int_schema(s.PROCESS_MEMORY_CACHE_MAX_SIZE.deep_view(), "PROCESS_MEMORY_CACHE_MAX_SIZE"@) == Ok::<i64, ValidationErrorView>(v.PROCESS_MEMORY_CACHE_MAX_SIZE)
            &&& spec_parse_positive_int_schema(s.PROCESS_MEMORY_CACHE_TTL.deep_view(), "PROCESS_MEMORY_CACHE_TTL"@) == Ok::<i64, ValidationErrorView>(v.PROCESS_MEMORY_CACHE_TTL)
            &&& spec_parse_positive_int_schema(s.PROCESS_MEMORY_CACHE_CHECKPOINT_INTERVAL.deep_view(), "PROCESS_MEMORY_CACHE_CHECKPOINT_INTERVAL"@) == Ok::<i64, ValidationErrorView>(v.PROCESS_MEMORY_CACHE_CHECKPOINT_INTERVAL)
            &&& spec_parse_positive_int_schema(s.BUSY_THRESHOLD.deep_view(), "BUSY_THRESHOLD"@) == Ok::<i64, ValidationErrorView>(v.BUSY_THRESHOLD)
            &&& (p.RESTRICT_PROCESSES matches Ok(x) && v.RESTRICT_PROCESSES == x.deep_view())
            &&& (p.ALLOW_PROCESSES matches Ok(x) && v.ALLOW_PROCESSES == x.deep_view())
        },
{
    reveal(spec_parse);
}

/// Parsing succeeds exactly where every setting's own parser succeeds, and
/// otherwise fails with the error of the first setting, in parse order,
/// whose parser fails.
pub proof fn parse_fails_at_the_first_failing_setting(s: StartDomainConfigSchema, p: ParsedFields)
    ensures
        spec_parse(s, p) is Ok <==> (spec_parse_positive_int_schema(s.PROCESS_WASM_MEMORY_MAX_LIMIT.deep_view(), "PROCESS_WASM_MEMORY_MAX_LIMIT"@) is Ok
            && spec_parse_positive_int_schema(s.PROCESS_WASM_COMPUTE_MAX_LIMIT.deep_view(), "PROCESS_WASM_COMPUTE_MAX_LIMIT"@) is Ok
            && p.GRAPHQL_URL is Ok
            && p.CHECKPOINT_GRAPHQL_URL is Ok
            && p.UPLOADER_URL is Ok
            && p.ARWEAVE_URL is Ok
            && p.DB_URL is Ok
            && p.WALLET is Ok
            && spec_parse_positive_int_schema(s.MEM_MONITOR_INTERVAL.deep_view(), "MEM_MONITOR_INTERVAL"@) is Ok
            && spec_parse_positive_int_schema(s.PROCESS_CHECKPOINT_CREATION_THROTTLE.deep_view(), "PROCESS_CHECKPOINT_CREATION_THROTTLE"@) is Ok
            && spec_is_boolean(s.DISABLE_PROCESS_CHECKPOINT_CREATION.deep_view())
            && spec_parse_positive_int_schema(s.EAGER_CHECKPOINT_THRESHOLD.deep_view(), "EAGER_CHECKPOINT_THRESHOLD"@) is Ok
            && spec_parse_positive_int_schema(s.WASM_EVALUATION_MAX_WORKERS.deep_view(), "WASM_EVALUATION_MAX_WORKERS"@) is Ok
            && spec_parse_positive_int_schema(s.WASM_INSTANCE_CACHE_MAX_SIZE.deep_view(), "WASM_INSTANCE_CACHE_MAX_SIZE"@) is Ok
            && spec_parse_positive_int_schema(s.WASM_MODULE_CACHE_MAX_SIZE.deep_view(), "WASM_MODULE_CACHE_MAX_SIZE"@) is Ok
            && p.WASM_BINARY_FILE_DIRECTORY is Ok
            && p.PROCESS_IGNORE_ARWEAVE_CHECKPOINTS is Ok
            && p.PROCESS_CHECKPOINT_FILE_DIRECTORY is Ok
            && spec_parse_positive_int_schema(s.PROCESS_MEMORY_CACHE_MAX_SIZE.deep_view(), "PROCESS_MEMORY_CACHE_MAX_SIZE"@) is Ok
            && spec_parse_positive_int_schema(s.PROCESS_MEMORY_CACHE_TTL.deep_view(), "PROCESS_MEMORY_CACHE_TTL"@) is Ok
            && spec_parse_positive_int_schema(s.PROCESS_MEMORY_CACHE_CHECKPOINT_INTERVAL.deep_view(), "PROCESS_MEMORY_CACHE_CHECKPOINT_INTERVAL"@) is Ok
            && spec_parse_positive_int_schema(s.BUSY_THRESHOLD.deep_view(), "BUSY_THRESHOLD"@) is Ok
            && p.RESTRICT_PROCESSES is Ok
            && p.ALLOW_PROCESSES is Ok),
        (!(spec_parse_positive_int_schema(s.PROCESS_WASM_MEMORY_MAX_LIMIT.deep_view(), "PROCESS_WASM_MEMORY_MAX_LIMIT"@) is Ok)) ==> spec_parse(s, p) == Err::<DomainConfigSchemaView, ValidationErrorView>(
            spec_parse_positive_int_schema(s.PROCESS_WASM_MEMORY_MAX_LIMIT.deep_view(), "PROCESS_WASM_MEMORY_MAX_LIMIT"@)->Err_0,
        ),
        (spec_parse_positive_int_schema(s.PROCESS_WASM_MEMORY_MAX_LIMIT.deep_view(), "PROCESS_WASM_MEMORY_MAX_LIMIT"@) is Ok && !(spec_parse_positive_int_schema(s.PROCESS_WASM_COMPUTE_MAX_LIMIT.deep_view(), "PROCESS_WASM_COMPUTE_MAX_LIMIT"@) is Ok)) ==> spec_parse(s, p) == Err::<DomainConfigSchemaView, ValidationErrorView>(
            spec_parse_positive_int_schema(s.PROCESS_WASM_COMPUTE_MAX_LIMIT.deep_view(), "PROCESS_WASM_COMPUTE_MAX_LIMIT"@)->Err_0,
        ),
        (spec_parse_positive_int_schema(s.PROCESS_WASM_MEMORY_MAX_LIMIT.deep_view(), "PROCESS_WASM_MEMORY_MAX_LIMIT"@) is Ok && spec_parse_positive_int_schema(s.PROCESS_WASM_COMPUTE_MAX_LIMIT.deep_view(), "PROCESS_WASM_COMPUTE_MAX_LIMIT"@) is Ok && !(p.GRAPHQL_URL is Ok)) ==> spec_parse(s, p) == Err::<DomainConfigSchemaView, ValidationErrorView>(
            p.GRAPHQL_URL->Err_0@,
        ),
        (spec_parse_positive_int_schema(s.PROCESS_WASM_MEMORY_MAX_LIMIT.deep_view(), "PROCESS_WASM_MEMORY_MAX_LIMIT"@) is Ok && spec_parse_positive_int_schema(s.PROCESS_WASM_COMPUTE_MAX_LIMIT.deep_view(), "PROCESS_WASM_COMPUTE_MAX_LIMIT"@) is Ok && p.GRAPHQL_URL is Ok && !(p.CHECKPOINT_GRAPHQL_URL is Ok)) ==> spec_parse(s, p) == Err::<DomainConfigSchemaView, ValidationErrorView>(
            p.CHECKPOINT_GRAPHQL_URL->Err_0@,
        ),
        (spec_parse_positive_int_schema(s.PROCESS_WASM_MEMORY_MAX_LIMIT.deep_view(), "PROCESS_WASM_MEMORY_MAX_LIMIT"@) is Ok && spec_parse_positive_int_schema(s.PROCESS_WASM_COMPUTE_MAX_LIMIT.deep_view(), "PROCESS_WASM_COMPUTE_MAX_LIMIT"@) is Ok && p.GRAPHQL_URL is Ok && p.CHECKPOINT_GRAPHQL_URL is Ok && !(p.UPLOADER_URL is Ok)) ==> spec_parse(s, p) == Err::<DomainConfigSchemaView, ValidationErrorView>(
            p.UPLOADER_URL->Err_0@,
        ),
        (spec_parse_positive_int_schema(s.PROCESS_WASM_MEMORY_MAX_LIMIT.deep_view(), "PROCESS_WASM_MEMORY_MAX_LIMIT"@) is Ok && spec_parse_positive_int_schema(s.PROCESS_WASM_COMPUTE_MAX_LIMIT.deep_view(), "PROCESS_WASM_COMPUTE_MAX_LIMIT"@) is Ok && p.GRAPHQL_URL is Ok && p.CHECKPOINT_GRAPHQL_URL is Ok && p.UPLOADER_URL is Ok && !(p.ARWEAVE_URL is Ok)) ==> spec_parse(s, p) == Err::<DomainConfigSchemaView, ValidationErrorView>(
            p.ARWEAVE_URL->Err_0@,
        ),
        (spec_parse_positive_int_schema(s.PROCESS_WASM_MEMORY_MAX_LIMIT.deep_view(), "PROCESS_WASM_MEMORY_MAX_LIMIT"@) is Ok && spec_parse_positive_int_schema(s.PROCESS_WASM_COMPUTE_MAX_LIMIT.deep_view(), "PROCESS_WASM_COMPUTE_MAX_LIMIT"@) is Ok && p.GRAPHQL_URL is Ok && p.CHECKPOINT_GRAPHQL_URL is Ok && p.UPLOADER_URL is Ok && p.ARWEAVE_URL is Ok && !(p.DB_URL is Ok)) ==> spec_parse(s, p) == Err::<DomainConfigSchemaView, ValidationErrorView>(
            p.DB_URL->Err_0@,
        ),
        (spec_parse_positive_int_schema(s.PROCESS_WASM_MEMORY_MAX_LIMIT.deep_view(), "PROCESS_WASM_MEMORY_MAX_LIMIT"@) is Ok && spec_parse_positive_int_schema(s.PROCESS_WASM_COMPUTE_MAX_LIMIT.deep_view(), "PROCESS_WASM_COMPUTE_MAX_LIMIT"@) is Ok && p.GRAPHQL_URL is Ok && p.CHECKPOINT_GRAPHQL_URL is Ok && p.UPLOADER_URL is Ok && p.ARWEAVE_URL is Ok && p.DB_URL is Ok && !(p.WALLET is Ok)) ==> spec_parse(s, p) == Err::<DomainConfigSchemaView, ValidationErrorView>(
            p.WALLET->Err_0@,
        ),
        (spec_parse_positive_int_schema(s.PROCESS_WASM_MEMORY_MAX_LIMIT.deep_view(), "PROCESS_WASM_MEMORY_MAX_LIMIT"@) is Ok && spec_parse_positive_int_schema(s.PROCESS_WASM_COMPUTE_MAX_LIMIT.deep_view(), "PROCESS_WASM_COMPUTE_MAX_LIMIT"@) is Ok && p.GRAPHQL_URL is Ok && p.CHECKPOINT_GRAPHQL_URL is Ok && p.UPLOADER_URL is Ok && p.ARWEAVE_URL is Ok && p.DB_URL is Ok && p.WALLET is Ok && !(spec_parse_positive_int_schema(s.MEM_MONITOR_INTERVAL.deep_view(), "MEM_MONITOR_INTERVAL"@) is Ok)) ==> spec_parse(s, p) == Err::<DomainConfigSchemaView, ValidationErrorView>(
            spec_parse_positive_int_schema(s.MEM_MONITOR_INTERVAL.deep_view(), "MEM_MONITOR_INTERVAL"@)->Err_0,
        ),
        (spec_parse_positive_int_schema(s.PROCESS_WASM_MEMORY_MAX_LIMIT.deep_view(), "PROCESS_WASM_MEMORY_MAX_LIMIT"@) is Ok && spec_parse_positive_int_schema(s.PROCESS_WASM_COMPUTE_MAX_LIMIT.deep_view(), "PROCESS_WASM_COMPUTE_MAX_LIMIT"@) is Ok && p.GRAPHQL_URL is Ok && p.CHECKPOINT_GRAPHQL_URL is Ok && p.UPLOADER_URL is Ok && p.ARWEAVE_URL is Ok && p.DB_URL is Ok && p.WALLET is Ok && spec_parse_positive_int_schema(s.MEM_MONITOR_INTERVAL.deep_view(), "MEM_MONITOR_INTERVAL"@) is Ok && !(spec_parse_positive_int_schema(s.PROCESS_CHECKPOINT_CREATION_THROTTLE.deep_view(), "PROCESS_CHECKPOINT_CREATION_THROTTLE"@) is Ok)) ==> spec_parse(s, p) == Err::<DomainConfigSchemaView, ValidationErrorView>(
            spec_parse_positive_int_schema(s.PROCESS_CHECKPOINT_CREATION_THROTTLE.deep_view(), "PROCESS_CHECKPOINT_CREATION_THROTTLE"@)->Err_0,
        ),
        (spec_parse_positive_int_schema(s.PROCESS_WASM_MEMORY_MAX_LIMIT.deep_view(), "PROCESS_WASM_MEMORY_MAX_LIMIT"@) is Ok && spec_parse_positive_int_schema(s.PROCESS_WASM_COMPUTE_MAX_LIMIT.deep_view(), "PROCESS_WASM_COMPUTE_MAX_LIMIT"@) is Ok && p.GRAPHQL_URL is Ok && p.CHECKPOINT_GRAPHQL_URL is Ok && p.UPLOADER_URL is Ok && p.ARWEAVE_URL is Ok && p.DB_URL is Ok && p.WALLET is Ok && spec_parse_positive_int_schema(s.MEM_MONITOR_INTERVAL.deep_view(), "MEM_MONITOR_INTERVAL"@) is Ok && spec_parse_positive_int_schema(s.PROCESS_CHECKPOINT_CREATION_THROTTLE.deep_view(), "PROCESS_CHECKPOINT_CREATION_THROTTLE"@) is Ok && !(spec_is_boolean(s.DISABLE_PROCESS_CHECKPOINT_CREATION.deep_view()))) ==> spec_parse(s, p) == Err::<DomainConfigSchemaView, ValidationErrorView>(
            boolean_error(s.DISABLE_PROCESS_CHECKPOINT_CREATION.deep_view(), DISABLE_PROCESS_CHECKPOINT_CREATION@),
        ),
        (spec_parse_positive_int_schema(s.PROCESS_WASM_MEMORY_MAX_LIMIT.deep_view(), "PROCESS_WASM_MEMORY_MAX_LIMIT"@) is Ok && spec_parse_positive_int_schema(s.PROCESS_WASM_COMPUTE_MAX_LIMIT.deep_view(), "PROCESS_WASM_COMPUTE_MAX_LIMIT"@) is Ok && p.GRAPHQL_URL is Ok && p.CHECKPOINT_GRAPHQL_URL is Ok && p.UPLOADER_URL is Ok && p.ARWEAVE_URL is Ok && p.DB_URL is Ok && p.WALLET is Ok && spec_parse_positive_int_schema(s.MEM_MONITOR_INTERVAL.deep_view(), "MEM_MONITOR_INTERVAL"@) is Ok && spec_parse_positive_int_schema(s.PROCESS_CHECKPOINT_CREATION_THROTTLE.deep_view(), "PROCESS_CHECKPOINT_CREATION_THROTTLE"@) is Ok && spec_is_boolean(s.DISABLE_PROCESS_CHECKPOINT_CREATION.deep_view()) && !(spec_parse_positive_int_schema(s.EAGER_CHECKPOINT_THRESHOLD.deep_view(), "EAGER_CHECKPOINT_THRESHOLD"@) is Ok)) ==> spec_parse(s, p) == Err::<DomainConfigSchemaView, ValidationErrorView>(
            spec_parse_positive_int_schema(s.EAGER_CHECKPOINT_THRESHOLD.deep_view(), "EAGER_CHECKPOINT_THRESHOLD"@)->Err_0,
        ),
        (spec_parse_positive_int_schema(s.PROCESS_WASM_MEMORY_MAX_LIMIT.deep_view(), "PROCESS_WASM_MEMORY_MAX_LIMIT"@) is Ok && spec_parse_positive_int_schema(s.PROCESS_WASM_COMPUTE_MAX_LIMIT.deep_view(), "PROCESS_WASM_COMPUTE_MAX_LIMIT"@) is Ok && p.GRAPHQL_URL is Ok && p.CHECKPOINT_GRAPHQL_URL is Ok && p.UPLOADER_URL is Ok && p.ARWEAVE_URL is Ok && p.DB_URL is Ok && p.WALLET is Ok && spec_parse_positive_int_schema(s.MEM_MONITOR_INTERVAL.deep_view(), "MEM_MONITOR_INTERVAL"@) is Ok && spec_parse_positive_int_schema(s.PROCESS_CHECKPOINT_CREATION_THROTTLE.deep_view(), "PROCESS_CHECKPOINT_CREATION_THROTTLE"@) is Ok && spec_is_boolean(s.DISABLE_PROCESS_CHECKPOINT_CREATION.deep_view()) && spec_parse_positive_int_schema(s.EAGER_CHECKPOINT_THRESHOLD.deep_view(), "EAGER_CHECKPOINT_THRESHOLD"@) is Ok && !(spec_parse_positive_int_schema(s.WASM_EVALUATION_MAX_WORKERS.deep_view(), "WASM_EVALUATION_MAX_WORKERS"@) is Ok)) ==> spec_parse(s, p) == Err::<DomainConfigSchemaView, ValidationErrorView>(
            spec_parse_positive_int_schema(s.WASM_EVALUATION_MAX_WORKERS.deep_view(), "WASM_EVALUATION_MAX_WORKERS"@)->Err_0,
        ),
        (spec_parse_positive_int_schema(s.PROCESS_WASM_MEMORY_MAX_LIMIT.deep_view(), "PROCESS_WASM_MEMORY_MAX_LIMIT"@) is Ok && spec_parse_positive_int_schema(s.PROCESS_WASM_COMPUTE_MAX_LIMIT.deep_view(), "PROCESS_WASM_COMPUTE_MAX_LIMIT"@) is Ok && p.GRAPHQL_URL is Ok && p.CHECKPOINT_GRAPHQL_URL is Ok && p.UPLOADER_URL is Ok && p.ARWEAVE_URL is Ok && p.DB_URL is Ok && p.WALLET is Ok && spec_parse_positive_int_schema(s.MEM_MONITOR_INTERVAL.deep_view(), "MEM_MONITOR_INTERVAL"@) is Ok && spec_parse_positive_int_schema(s.PROCESS_CHECKPOINT_CREATION_THROTTLE.deep_view(), "PROCESS_CHECKPOINT_CREATION_THROTTLE"@) is Ok && spec_is_boolean(s.DISABLE_PROCESS_CHECKPOINT_CREATION.deep_view()) && spec_parse_positive_int_schema(s.EAGER_CHECKPOINT_THRESHOLD.deep_view(), "EAGER_CHECKPOINT_THRESHOLD"@) is Ok && spec_parse_positive_int_schema(s.WASM_EVALUATION_MAX_WORKERS.deep_view(), "WASM_EVALUATION_MAX_WORKERS"@) is Ok && !(spec_parse_positive_int_schema(s.WASM_INSTANCE_CACHE_MAX_SIZE.deep_view(), "WASM_INSTANCE_CACHE_MAX_SIZE"@) is Ok)) ==> spec_parse(s, p) == Err::<DomainConfigSchemaView, ValidationErrorView>(
            spec_parse_positive_int_schema(s.WASM_INSTANCE_CACHE_MAX_SIZE.deep_view(), "WASM_INSTANCE_CACHE_MAX_SIZE"@)->Err_0,
        ),
        (spec_parse_positive_int_schema(s.PROCESS_WASM_MEMORY_MAX_LIMIT.deep_view(), "PROCESS_WASM_MEMORY_MAX_LIMIT"@) is Ok && spec_parse_positive_int_schema(s.PROCESS_WASM_COMPUTE_MAX_LIMIT.deep_view(), "PROCESS_WASM_COMPUTE_MAX_LIMIT"@) is Ok && p.GRAPHQL_URL is Ok && p.CHECKPOINT_GRAPHQL_URL is Ok && p.UPLOADER_URL is Ok && p.ARWEAVE_URL is Ok && p.DB_URL is Ok && p.WALLET is Ok && spec_parse_positive_int_schema(s.MEM_MONITOR_INTERVAL.deep_view(), "MEM_MONITOR_INTERVAL"@) is Ok && spec_parse_positive_int_schema(s.PROCESS_CHECKPOINT_CREATION_THROTTLE.deep_view(), "PROCESS_CHECKPOINT_CREATION_THROTTLE"@) is Ok && spec_is_boolean(s.DISABLE_PROCESS_CHECKPOINT_CREATION.deep_view()) && spec_parse_positive_int_schema(s.EAGER_CHECKPOINT_THRESHOLD.deep_view(), "EAGER_CHECKPOINT_THRESHOLD"@) is Ok && spec_parse_positive_int_schema(s.WASM_EVALUATION_MAX_WORKERS.deep_view(), "WASM_EVALUATION_MAX_WORKERS"@) is Ok && spec_parse_positive_int_schema(s.WASM_INSTANCE_CACHE_MAX_SIZE.deep_view(), "WASM_INSTANCE_CACHE_MAX_SIZE"@) is Ok && !(spec_parse_positive_int_schema(s.WASM_MODULE_CACHE_MAX_SIZE.deep_view(), "WASM_MODULE_CACHE_MAX_SIZE"@) is Ok)) ==> spec_parse(s, p) == Err::<DomainConfigSchemaView, ValidationErrorView>(
            spec_parse_positive_int_schema(s.WASM_MODULE_CACHE_MAX_SIZE.deep_view(), "WASM_MODULE_CACHE_MAX_SIZE"@)->Err_0,
        ),
        (spec_parse_positive_int_schema(s.PROCESS_WASM_MEMORY_MAX_LIMIT.deep_view(), "PROCESS_WASM_MEMORY_MAX_LIMIT"@) is Ok && spec_parse_positive_int_schema(s.PROCESS_WASM_COMPUTE_MAX_LIMIT.deep_view(), "PROCESS_WASM_COMPUTE_MAX_LIMIT"@) is Ok && p.GRAPHQL_URL is Ok && p.CHECKPOINT_GRAPHQL_URL is Ok && p.UPLOADER_URL is Ok && p.ARWEAVE_URL is Ok && p.DB_URL is Ok && p.WALLET is Ok && spec_parse_positive_int_schema(s.MEM_MONITOR_INTERVAL.deep_view(), "MEM_MONITOR_INTERVAL"@) is Ok && spec_parse_positive_int_schema(s.PROCESS_CHECKPOINT_CREATION_THROTTLE.deep_view(), "PROCESS_CHECKPOINT_CREATION_THROTTLE"@) is Ok && spec_is_boolean(s.DISABLE_PROCESS_CHECKPOINT_CREATION.deep_view()) && spec_parse_positive_int_schema(s.EAGER_CHECKPOINT_THRESHOLD.deep_view(), "EAGER_CHECKPOINT_THRESHOLD"@) is Ok && spec_parse_positive_int_schema(s.WASM_EVALUATION_MAX_WORKERS.deep_view(), "WASM_EVALUATION_MAX_WORKERS"@) is Ok && spec_parse_positive_int_schema(s.WASM_INSTANCE_CACHE_MAX_SIZE.deep_view(), "WASM_INSTANCE_CACHE_MAX_SIZE"@) is Ok && spec_parse_positive_int_schema(s.WASM_MODULE_CACHE_MAX_SIZE.deep_view(), "WASM_MODULE_CACHE_MAX_SIZE"@) is Ok && !(p.WASM_BINARY_FILE_DIRECTORY is Ok)) ==> spec_parse(s, p) == Err::<DomainConfigSchemaView, ValidationErrorView>(
            p.WASM_BINARY_FILE_DIRECTORY->Err_0@,
        ),
        (spec_parse_positive_int_schema(s.PROCESS_WASM_MEMORY_MAX_LIMIT.deep_view(), "PROCESS_WASM_MEMORY_MAX_LIMIT"@) is Ok && spec_parse_positive_int_schema(s.PROCESS_WASM_COMPUTE_MAX_LIMIT.deep_view(), "PROCESS_WASM_COMPUTE_MAX_LIMIT"@) is Ok && p.GRAPHQL_URL is Ok && p.CHECKPOINT_GRAPHQL_URL is Ok && p.UPLOADER_URL is Ok && p.ARWEAVE_URL is Ok && p.DB_URL is Ok && p.WALLET is Ok && spec_parse_positive_int_schema(s.MEM_MONITOR_INTERVAL.deep_view(), "MEM_MONITOR_INTERVAL"@) is Ok && spec_parse_positive_int_schema(s.PROCESS_CHECKPOINT_CREATION_THROTTLE.deep_view(), "PROCESS_CHECKPOINT_CREATION_THROTTLE"@) is Ok && spec_is_boolean(s.DISABLE_PROCESS_CHECKPOINT_CREATION.deep_view()) && spec_parse_positive_int_schema(s.EAGER_CHECKPOINT_THRESHOLD.deep_view(), "EAGER_CHECKPOINT_THRESHOLD"@) is Ok && spec_parse_positive_int_schema(s.WASM_EVALUATION_MAX_WORKERS.deep_view(), "WASM_EVALUATION_MAX_WORKERS"@) is Ok && spec_parse_positive_int_schema(s.WASM_INSTANCE_CACHE_MAX_SIZE.deep_view(), "WASM_INSTANCE_CACHE_MAX_SIZE"@) is Ok && spec_parse_positive_int_schema(s.WASM_MODULE_CACHE_MAX_SIZE.deep_view(), "WASM_MODULE_CACHE_MAX_SIZE"@) is Ok && p.WASM_BINARY_FILE_DIRECTORY is Ok && !(p.PROCESS_IGNORE_ARWEAVE_CHECKPOINTS is Ok)) ==> spec_parse(s, p) == Err::<DomainConfigSchemaView, ValidationErrorView>(
            p.PROCESS_IGNORE_ARWEAVE_CHECKPOINTS->Err_0@,
        ),
        (spec_parse_positive_int_schema(s.PROCESS_WASM_MEMORY_MAX_LIMIT.deep_view(), "PROCESS_WASM_MEMORY_MAX_LIMIT"@) is Ok && spec_parse_positive_int_schema(s.PROCESS_WASM_COMPUTE_MAX_LIMIT.deep_view(), "PROCESS_WASM_COMPUTE_MAX_LIMIT"@) is Ok && p.GRAPHQL_URL is Ok && p.CHECKPOINT_GRAPHQL_URL is Ok && p.UPLOADER_URL is Ok && p.ARWEAVE_URL is Ok && p.DB_URL is Ok && p.WALLET is Ok && spec_parse_positive_int_schema(s.MEM_MONITOR_INTERVAL.deep_view(), "MEM_MONITOR_INTERVAL"@) is Ok && spec_parse_positive_int_schema(s.PROCESS_CHECKPOINT_CREATION_THROTTLE.deep_view(), "PROCESS_CHECKPOINT_CREATION_THROTTLE"@) is Ok && spec_is_boolean(s.DISABLE_PROCESS_CHECKPOINT_CREATION.deep_view()) && spec_parse_positive_int_schema(s.EAGER_CHECKPOINT_THRESHOLD.deep_view(), "EAGER_CHECKPOINT_THRESHOLD"@) is Ok && spec_parse_positive_int_schema(s.WASM_EVALUATION_MAX_WORKERS.deep_view(), "WASM_EVALUATION_MAX_WORKERS"@) is Ok && spec_parse_positive_int_schema(s.WASM_INSTANCE_CACHE_MAX_SIZE.deep_view(), "WASM_INSTANCE_CACHE_MAX_SIZE"@) is Ok && spec_parse_positive_int_schema(s.WASM_MODULE_CACHE_MAX_SIZE.deep_view(), "WASM_MODULE_CACHE_MAX_SIZE"@) is Ok && p.WASM_BINARY_FILE_DIRECTORY is Ok && p.PROCESS_IGNORE_ARWEAVE_CHECKPOINTS is Ok && !(p.PROCESS_CHECKPOINT_FILE_DIRECTORY is Ok)) ==> spec_parse(s, p) == Err::<DomainConfigSchemaView, ValidationErrorView>(
            p.PROCESS_CHECKPOINT_FILE_DIRECTORY->Err_0@,
        ),
        (spec_parse_positive_int_schema(s.PROCESS_WASM_MEMORY_MAX_LIMIT.deep_view(), "PROCESS_WASM_MEMORY_MAX_LIMIT"@) is Ok && spec_parse_positive_int_schema(s.PROCESS_WASM_COMPUTE_MAX_LIMIT.deep_view(), "PROCESS_WASM_COMPUTE_MAX_LIMIT"@) is Ok && p.GRAPHQL_URL is Ok && p.CHECKPOINT_GRAPHQL_URL is Ok && p.UPLOADER_URL is Ok && p.ARWEAVE_URL is Ok && p.DB_URL is Ok && p.WALLET is Ok && spec_parse_positive_int_schema(s.MEM_MONITOR_INTERVAL.deep_view(), "MEM_MONITOR_INTERVAL"@) is Ok && spec_parse_positive_int_schema(s.PROCESS_CHECKPOINT_CREATION_THROTTLE.deep_view(), "PROCESS_CHECKPOINT_CREATION_THROTTLE"@) is Ok && spec_is_boolean(s.DISABLE_PROCESS_CHECKPOINT_CREATION.deep_view()) && spec_parse_positive_int_schema(s.EAGER_CHECKPOINT_THRESHOLD.deep_view(), "EAGER_CHECKPOINT_THRESHOLD"@) is Ok && spec_parse_positive_int_schema(s.WASM_EVALUATION_MAX_WORKERS.deep_view(), "WASM_EVALUATION_MAX_WORKERS"@) is Ok && spec_parse_positive_int_schema(s.WASM_INSTANCE_CACHE_MAX_SIZE.deep_view(), "WASM_INSTANCE_CACHE_MAX_SIZE"@) is Ok && spec_parse_positive_int_schema(s.WASM_MODULE_CACHE_MAX_SIZE.deep_view(), "WASM_MODULE_CACHE_MAX_SIZE"@) is Ok && p.WASM_BINARY_FILE_DIRECTORY is Ok && p.PROCESS_IGNORE_ARWEAVE_CHECKPOINTS is Ok && p.PROCESS_CHECKPOINT_FILE_DIRECTORY is Ok && !(spec_parse_positive_int_schema(s.PROCESS_MEMORY_CACHE_MAX_SIZE.deep_view(), "PROCESS_MEMORY_CACHE_MAX_SIZE"@) is Ok)) ==> spec_parse(s, p) == Err::<DomainConfigSchemaView, ValidationErrorView>(
            spec_parse_positive_int_schema(s.PROCESS_MEMORY_CACHE_MAX_SIZE.deep_view(), "PROCESS_MEMORY_CACHE_MAX_SIZE"@)->Err_0,
        ),
        (spec_parse_positive_int_schema(s.PROCESS_WASM_MEMORY_MAX_LIMIT.deep_view(), "PROCESS_WASM_MEMORY_MAX_LIMIT"@) is Ok && spec_parse_positive_int_schema(s.PROCESS_WASM_COMPUTE_MAX_LIMIT.deep_view(), "PROCESS_WASM_COMPUTE_MAX_LIMIT"@) is Ok && p.GRAPHQL_URL is Ok && p.CHECKPOINT_GRAPHQL_URL is Ok && p.UPLOADER_URL is Ok && p.ARWEAVE_URL is Ok && p.DB_URL is Ok && p.WALLET is Ok && spec_parse_positive_int_schema(s.MEM_MONITOR_INTERVAL.deep_view(), "MEM_MONITOR_INTERVAL"@) is Ok && spec_parse_positive_int_schema(s.PROCESS_CHECKPOINT_CREATION_THROTTLE.deep_view(), "PROCESS_CHECKPOINT_CREATION_THROTTLE"@) is Ok && spec_is_boolean(s.DISABLE_PROCESS_CHECKPOINT_CREATION.deep_view()) && spec_parse_positive_int_schema(s.EAGER_CHECKPOINT_THRESHOLD.deep_view(), "EAGER_CHECKPOINT_THRESHOLD"@) is Ok && spec_parse_positive_int_schema(s.WASM_EVALUATION_MAX_WORKERS.deep_view(), "WASM_EVALUATION_MAX_WORKERS"@) is Ok && spec_parse_positive_int_schema(s.WASM_INSTANCE_CACHE_MAX_SIZE.deep_view(), "WASM_INSTANCE_CACHE_MAX_SIZE"@) is Ok && spec_parse_positive_int_schema(s.WASM_MODULE_CACHE_MAX_SIZE.deep_view(), "WASM_MODULE_CACHE_MAX_SIZE"@) is Ok && p.WASM_BINARY_FILE_DIRECTORY is Ok && p.PROCESS_IGNORE_ARWEAVE_CHECKPOINTS is Ok && p.PROCESS_CHECKPOINT_FILE_DIRECTORY is Ok && spec_parse_positive_int_schema(s.PROCESS_MEMORY_CACHE_MAX_SIZE.deep_view(), "PROCESS_MEMORY_CACHE_MAX_SIZE"@) is Ok && !(spec_parse_positive_int_schema(s.PROCESS_MEMORY_CACHE_TTL.deep_view(), "PROCESS_MEMORY_CACHE_TTL"@) is Ok)) ==> spec_parse(s, p) == Err::<DomainConfigSchemaView, ValidationErrorView>(
            spec_parse_positive_int_schema(s.PROCESS_MEMORY_CACHE_TTL.deep_view(), "PROCESS_MEMORY_CACHE_TTL"@)->Err_0,
        ),
        (spec_parse_positive_int_schema(s.PROCESS_WASM_MEMORY_MAX_LIMIT.deep_view(), "PROCESS_WASM_MEMORY_MAX_LIMIT"@) is Ok && spec_parse_positive_int_schema(s.PROCESS_WASM_COMPUTE_MAX_LIMIT.deep_view(), "PROCESS_WASM_COMPUTE_MAX_LIMIT"@) is Ok && p.GRAPHQL_URL is Ok && p.CHECKPOINT_GRAPHQL_URL is Ok && p.UPLOADER_URL is Ok && p.ARWEAVE_URL is Ok && p.DB_URL is Ok && p.WALLET is Ok && spec_parse_positive_int_schema(s.MEM_MONITOR_INTERVAL.deep_view(), "MEM_MONITOR_INTERVAL"@) is Ok && spec_parse_positive_int_schema(s.PROCESS_CHECKPOINT_CREATION_THROTTLE.deep_view(), "PROCESS_CHECKPOINT_CREATION_THROTTLE"@) is Ok && spec_is_boolean(s.DISABLE_PROCESS_CHECKPOINT_CREATION.deep_view()) && spec_parse_positive_int_schema(s.EAGER_CHECKPOINT_THRESHOLD.deep_view(), "EAGER_CHECKPOINT_THRESHOLD"@) is Ok && spec_parse_positive_int_schema(s.WASM_EVALUATION_MAX_WORKERS.deep_view(), "WASM_EVALUATION_MAX_WORKERS"@) is Ok && spec_parse_positive_int_schema(s.WASM_INSTANCE_CACHE_MAX_SIZE.deep_view(), "WASM_INSTANCE_CACHE_MAX_SIZE"@) is Ok && spec_parse_positive_int_schema(s.WASM_MODULE_CACHE_MAX_SIZE.deep_view(), "WASM_MODULE_CACHE_MAX_SIZE"@) is Ok && p.WASM_BINARY_FILE_DIRECTORY is Ok && p.PROCESS_IGNORE_ARWEAVE_CHECKPOINTS is Ok && p.PROCESS_CHECKPOINT_FILE_DIRECTORY is Ok && spec_parse_positive_int_schema(s.PROCESS_MEMORY_CACHE_MAX_SIZE.deep_view(), "PROCESS_MEMORY_CACHE_MAX_SIZE"@) is Ok && spec_parse_positive_int_schema(s.PROCESS_MEMORY_CACHE_TTL.deep_view(), "PROCESS_MEMORY_CACHE_TTL"@) is Ok && !(spec_parse_positive_int_schema(s.PROCESS_MEMORY_CACHE_CHECKPOINT_INTERVAL.deep_view(), "PROCESS_MEMORY_CACHE_CHECKPOINT_INTERVAL"@) is Ok)) ==> spec_parse(s, p) == Err::<DomainConfigSchemaView, ValidationErrorView>(
            spec_parse_positive_int_schema(s.PROCESS_MEMORY_CACHE_CHECKPOINT_INTERVAL.deep_view(), "PROCESS_MEMORY_CACHE_CHECKPOINT_INTERVAL"@)->Err_0,
        ),
        (spec_parse_positive_int_schema(s.PROCESS_WASM_MEMORY_MAX_LIMIT.deep_view(), "PROCESS_WASM_MEMORY_MAX_LIMIT"@) is Ok && spec_parse_positive_int_schema(s.PROCESS_WASM_COMPUTE_MAX_LIMIT.deep_view(), "PROCESS_WASM_COMPUTE_MAX_LIMIT"@) is Ok && p.GRAPHQL_URL is Ok && p.CHECKPOINT_GRAPHQL_URL is Ok && p.UPLOADER_URL is Ok && p.ARWEAVE_URL is Ok && p.DB_URL is Ok && p.WALLET is Ok && spec_parse_positive_int_schema(s.MEM_MONITOR_INTERVAL.deep_view(), "MEM_MONITOR_INTERVAL"@) is Ok && spec_parse_positive_int_schema(s.PROCESS_CHECKPOINT_CREATION_THROTTLE.deep_view(), "PROCESS_CHECKPOINT_CREATION_THROTTLE"@) is Ok && spec_is_boolean(s.DISABLE_PROCESS_CHECKPOINT_CREATION.deep_view()) && spec_parse_positive_int_schema(s.EAGER_CHECKPOINT_THRESHOLD.deep_view(), "EAGER_CHECKPOINT_THRESHOLD"@) is Ok && spec_parse_positive_int_schema(s.WASM_EVALUATION_MAX_WORKERS.deep_view(), "WASM_EVALUATION_MAX_WORKERS"@) is Ok && spec_parse_positive_int_schema(s.WASM_INSTANCE_CACHE_MAX_SIZE.deep_view(), "WASM_INSTANCE_CACHE_MAX_SIZE"@) is Ok && spec_parse_positive_int_schema(s.WASM_MODULE_CACHE_MAX_SIZE.deep_view(), "WASM_MODULE_CACHE_MAX_SIZE"@) is Ok && p.WASM_BINARY_FILE_DIRECTORY is Ok && p.PROCESS_IGNORE_ARWEAVE_CHECKPOINTS is Ok && p.PROCESS_CHECKPOINT_FILE_DIRECTORY is Ok && spec_parse_positive_int_schema(s.PROCESS_MEMORY_CACHE_MAX_SIZE.deep_view(), "PROCESS_MEMORY_CACHE_MAX_SIZE"@) is Ok && spec_parse_positive_int_schema(s.PROCESS_MEMORY_CACHE_TTL.deep_view(), "PROCESS_MEMORY_CACHE_TTL"@) is Ok && spec_parse_positive_int_schema(s.PROCESS_MEMORY_CACHE_CHECKPOINT_INTERVAL.deep_view(), "PROCESS_MEMORY_CACHE_CHECKPOINT_INTERVAL"@) is Ok && !(spec_parse_positive_int_schema(s.BUSY_THRESHOLD.deep_view(), "BUSY_THRESHOLD"@) is Ok)) ==> spec_parse(s, p) == Err::<DomainConfigSchemaView, ValidationErrorView>(
            spec_parse_positive_int_schema(s.BUSY_THRESHOLD.deep_view(), "BUSY_THRESHOLD"@)->Err_0,
        ),
        (spec_parse_positive_int_schema(s.PROCESS_WASM_MEMORY_MAX_LIMIT.deep_view(), "PROCESS_WASM_MEMORY_MAX_LIMIT"@) is Ok && spec_parse_positive_int_schema(s.PROCESS_WASM_COMPUTE_MAX_LIMIT.deep_view(), "PROCESS_WASM_COMPUTE_MAX_LIMIT"@) is Ok && p.GRAPHQL_URL is Ok && p.CHECKPOINT_GRAPHQL_URL is Ok && p.UPLOADER_URL is Ok && p.ARWEAVE_URL is Ok && p.DB_URL is Ok && p.WALLET is Ok && spec_parse_positive_int_schema(s.MEM_MONITOR_INTERVAL.deep_view(), "MEM_MONITOR_INTERVAL"@) is Ok && spec_parse_positive_int_schema(s.PROCESS_CHECKPOINT_CREATION_THROTTLE.deep_view(), "PROCESS_CHECKPOINT_CREATION_THROTTLE"@) is Ok && spec_is_boolean(s.DISABLE_PROCESS_CHECKPOINT_CREATION.deep_view()) && spec_parse_positive_int_schema(s.EAGER_CHECKPOINT_THRESHOLD.deep_view(), "EAGER_CHECKPOINT_THRESHOLD"@) is Ok && spec_parse_positive_int_schema(s.WASM_EVALUATION_MAX_WORKERS.deep_view(), "WASM_EVALUATION_MAX_WORKERS"@) is Ok && spec_parse_positive_int_schema(s.WASM_INSTANCE_CACHE_MAX_SIZE.deep_view(), "WASM_INSTANCE_CACHE_MAX_SIZE"@) is Ok && spec_parse_positive_int_schema(s.WASM_MODULE_CACHE_MAX_SIZE.deep_view(), "WASM_MODULE_CACHE_MAX_SIZE"@) is Ok && p.WASM_BINARY_FILE_DIRECTORY is Ok && p.PROCESS_IGNORE_ARWEAVE_CHECKPOINTS is Ok && p.PROCESS_CHECKPOINT_FILE_DIRECTORY is Ok && spec_parse_positive_int_schema(s.PROCESS_MEMORY_CACHE_MAX_SIZE.deep_view(), "PROCESS_MEMORY_CACHE_MAX_SIZE"@) is Ok && spec_parse_positive_int_schema(s.PROCESS_MEMORY_CACHE_TTL.deep_view(), "PROCESS_MEMORY_CACHE_TTL"@) is Ok && spec_parse_positive_int_schema(s.PROCESS_MEMORY_CACHE_CHECKPOINT_INTERVAL.deep_view(), "PROCESS_MEMORY_CACHE_CHECKPOINT_INTERVAL"@) is Ok && spec_parse_positive_int_schema(s.BUSY_THRESHOLD.deep_view(), "BUSY_THRESHOLD"@) is Ok && !(p.RESTRICT_PROCESSES is Ok)) ==> spec_parse(s, p) == Err::<DomainConfigSchemaView, ValidationErrorView>(
            p.RESTRICT_PROCESSES->Err_0@,
        ),
        (spec_parse_positive_int_schema(s.PROCESS_WASM_MEMORY_MAX_LIMIT.deep_view(), "PROCESS_WASM_MEMORY_MAX_LIMIT"@) is Ok && spec_parse_positive_int_schema(s.PROCESS_WASM_COMPUTE_MAX_LIMIT.deep_view(), "PROCESS_WASM_COMPUTE_MAX_LIMIT"@) is Ok && p.GRAPHQL_URL is Ok && p.CHECKPOINT_GRAPHQL_URL is Ok && p.UPLOADER_URL is Ok && p.ARWEAVE_URL is Ok && p.DB_URL is Ok && p.WALLET is Ok && spec_parse_positive_int_schema(s.MEM_MONITOR_INTERVAL.deep_view(), "MEM_MONITOR_INTERVAL"@) is Ok && spec_parse_positive_int_schema(s.PROCESS_CHECKPOINT_CREATION_THROTTLE.deep_view(), "PROCESS_CHECKPOINT_CREATION_THROTTLE"@) is Ok && spec_is_boolean(s.DISABLE_PROCESS_CHECKPOINT_CREATION.deep_view()) && spec_parse_positive_int_schema(s.EAGER_CHECKPOINT_THRESHOLD.deep_view(), "EAGER_CHECKPOINT_THRESHOLD"@) is Ok && spec_parse_positive_int_schema(s.WASM_EVALUATION_MAX_WORKERS.deep_view(), "WASM_EVALUATION_MAX_WORKERS"@) is Ok && spec_parse_positive_int_schema(s.WASM_INSTANCE_CACHE_MAX_SIZE.deep_view(), "WASM_INSTANCE_CACHE_MAX_SIZE"@) is Ok && spec_parse_positive_int_schema(s.WASM_MODULE_CACHE_MAX_SIZE.deep_view(), "WASM_MODULE_CACHE_MAX_SIZE"@) is Ok && p.WASM_BINARY_FILE_DIRECTORY is Ok && p.PROCESS_IGNORE_ARWEAVE_CHECKPOINTS is Ok && p.PROCESS_CHECKPOINT_FILE_DIRECTORY is Ok && spec_parse_positive_int_schema(s.PROCESS_MEMORY_CACHE_MAX_SIZE.deep_view(), "PROCESS_MEMORY_CACHE_MAX_SIZE"@) is Ok && spec_parse_positive_int_schema(s.PROCESS_MEMORY_CACHE_TTL.deep_view(), "PROCESS_MEMORY_CACHE_TTL"@) is Ok && spec_parse_positive_int_schema(s.PROCESS_MEMORY_CACHE_CHECKPOINT_INTERVAL.deep_view(), "PROCESS_MEMORY_CACHE_CHECKPOINT_INTERVAL"@) is Ok && spec_parse_positive_int_schema(s.BUSY_THRESHOLD.deep_view(), "BUSY_THRESHOLD"@) is Ok && p.RESTRICT_PROCESSES is Ok && !(p.ALLOW_PROCESSES is Ok)) ==> spec_parse(s, p) == Err::<DomainConfigSchemaView, ValidationErrorView>(
            p.ALLOW_PROCESSES->Err_0@,
        ),
{
    reveal(spec_parse);
}

impl StartDomainConfigSchema {
    /// Parses the settings (see `spec_parse`), with the outcomes of the other
    /// parsers in `parsed`, where every numeric setting it reaches is
    /// supported (see `parse_reachable_supported`); `None` where one is not.
    pub fn try_parse(&self, parsed: ParsedFields) -> (r: Option<Result<DomainConfigSchema, ValidationError>>)
        ensures
            r is Some <==> parse_reachable_supported(*self, parsed),
            r matches Some(res) ==> parse_agrees(res, spec_parse(*self, parsed)),
    {
        proof {
            reveal(spec_parse);
            reveal(parse_reachable_supported);
        }
        let mut c = DomainConfigSchema::default();
        if !positive_int_input_supported(&self.PROCESS_WASM_MEMORY_MAX_LIMIT) {
            return None;
        }
        match parse_positive_int_schema(self.PROCESS_WASM_MEMORY_MAX_LIMIT.clone(), "PROCESS_WASM_MEMORY_MAX_LIMIT") {
            Ok(v) => c.PROCESS_WASM_MEMORY_MAX_LIMIT = v,
            Err(e) => return Some(Err(e)),
        }
        if !positive_int_input_supported(&self.PROCESS_WASM_COMPUTE_MAX_LIMIT) {
            return None;
        }
        match parse_positive_int_schema(self.PROCESS_WASM_COMPUTE_MAX_LIMIT.clone(), "PROCESS_WASM_COMPUTE_MAX_LIMIT") {
            Ok(v) => c.PROCESS_WASM_COMPUTE_MAX_LIMIT = v,
            Err(e) => return Some(Err(e)),
        }
        match parsed.GRAPHQL_URL {
            Ok(v) => c.GRAPHQL_URL = v,
            Err(e) => return Some(Err(e)),
        }
        match parsed.CHECKPOINT_GRAPHQL_URL {
            Ok(v) => c.CHECKPOINT_GRAPHQL_URL = v,
            Err(e) => return Some(Err(e)),
        }
        match parsed.UPLOADER_URL {
            Ok(v) => c.UPLOADER_URL = v,
            Err(e) => return Some(Err(e)),
        }
        match parsed.ARWEAVE_URL {
            Ok(v) => c.ARWEAVE_URL = v,
            Err(e) => return Some(Err(e)),
        }
        match parsed.DB_URL {
            Ok(v) => c.DB_URL = v,
            Err(e) => return Some(Err(e)),
        }
        match parsed.WALLET {
            Ok(v) => c.WALLET = v,
            Err(e) => return Some(Err(e)),
        }
        if !positive_int_input_supported(&self.MEM_MONITOR_INTERVAL) {
            return None;
        }
        match parse_positive_int_schema(self.MEM_MONITOR_INTERVAL.clone(), "MEM_MONITOR_INTERVAL") {
            Ok(v) => c.MEM_MONITOR_INTERVAL = v,
            Err(e) => return Some(Err(e)),
        }
        if !positive_int_input_supported(&self.PROCESS_CHECKPOINT_CREATION_THROTTLE) {
            return None;
        }
        match parse_positive_int_schema(self.PROCESS_CHECKPOINT_CREATION_THROTTLE.clone(), "PROCESS_CHECKPOINT_CREATION_THROTTLE") {
            Ok(v) => c.PROCESS_CHECKPOINT_CREATION_THROTTLE = v,
            Err(e) => return Some(Err(e)),
        }
        match parse_boolean_schema(self.DISABLE_PROCESS_CHECKPOINT_CREATION.clone()) {
            Ok(v) => c.DISABLE_PROCESS_CHECKPOINT_CREATION = v,
            Err(e) => return Some(Err(e)),
        }
        if !positive_int_input_supported(&self.EAGER_CHECKPOINT_THRESHOLD) {
            return None;
        }
        match parse_positive_int_schema(self.EAGER_CHECKPOINT_THRESHOLD.clone(), "EAGER_CHECKPOINT_THRESHOLD") {
            Ok(v) => c.EAGER_CHECKPOINT_THRESHOLD = v,
            Err(e) => return Some(Err(e)),
        }
        if !positive_int_input_supported(&self.WASM_EVALUATION_MAX_WORKERS) {
            return None;
        }
        match parse_positive_int_schema(self.WASM_EVALUATION_MAX_WORKERS.clone(), "WASM_EVALUATION_MAX_WORKERS") {
            Ok(v) => c.WASM_EVALUATION_MAX_WORKERS = v,
            Err(e) => return Some(Err(e)),
        }
        if !positive_int_input_supported(&self.WASM_INSTANCE_CACHE_MAX_SIZE) {
            return None;
        }
        match parse_positive_int_schema(self.WASM_INSTANCE_CACHE_MAX_SIZE.clone(), "WASM_INSTANCE_CACHE_MAX_SIZE") {
            Ok(v) => c.WASM_INSTANCE_CACHE_MAX_SIZE = v,
            Err(e) => return Some(Err(e)),
        }
        if !positive_int_input_supported(&self.WASM_MODULE_CACHE_MAX_SIZE) {
            return None;
        }
        match parse_positive_int_schema(self.WASM_MODULE_CACHE_MAX_SIZE.clone(), "WASM_MODULE_CACHE_MAX_SIZE") {
            Ok(v) => c.WASM_MODULE_CACHE_MAX_SIZE = v,
            Err(e) => return Some(Err(e)),
        }
        match parsed.WASM_BINARY_FILE_DIRECTORY {
            Ok(v) => c.WASM_BINARY_FILE_DIRECTORY = v,
            Err(e) => return Some(Err(e)),
        }
        match parsed.PROCESS_IGNORE_ARWEAVE_CHECKPOINTS {
            Ok(v) => c.PROCESS_IGNORE_ARWEAVE_CHECKPOINTS = v,
            Err(e) => return Some(Err(e)),
        }
        match parsed.PROCESS_CHECKPOINT_FILE_DIRECTORY {
            Ok(v) => c.PROCESS_CHECKPOINT_FILE_DIRECTORY = v,
            Err(e) => return Some(Err(e)),
        }
        if !positive_int_input_supported(&self.PROCESS_MEMORY_CACHE_MAX_SIZE) {
            return None;
        }
        match parse_positive_int_schema(self.PROCESS_MEMORY_CACHE_MAX_SIZE.clone(), "PROCESS_MEMORY_CACHE_MAX_SIZE") {
            Ok(v) => c.PROCESS_MEMORY_CACHE_MAX_SIZE = v,
            Err(e) => return Some(Err(e)),
        }
        if !positive_int_input_supported(&self.PROCESS_MEMORY_CACHE_TTL) {
            return None;
        }
        match parse_positive_int_schema(self.PROCESS_MEMORY_CACHE_TTL.clone(), "PROCESS_MEMORY_CACHE_TTL") {
            Ok(v) => c.PROCESS_MEMORY_CACHE_TTL = v,
            Err(e) => return Some(Err(e)),
        }
        if !positive_int_input_supported(&self.PROCESS_MEMORY_CACHE_CHECKPOINT_INTERVAL) {
            return None;
        }
        match parse_positive_int_schema(self.PROCESS_MEMORY_CACHE_CHECKPOINT_INTERVAL.clone(), "PROCESS_MEMORY_CACHE_CHECKPOINT_INTERVAL") {
            Ok(v) => c.PROCESS_MEMORY_CACHE_CHECKPOINT_INTERVAL = v,
            Err(e) => return Some(Err(e)),
        }
        if !positive_int_input_supported(&self.BUSY_THRESHOLD) {
            return None;
        }
        match parse_positive_int_schema(self.BUSY_THRESHOLD.clone(), "BUSY_THRESHOLD") {
            Ok(v) => c.BUSY_THRESHOLD = v,
            Err(e) => return Some(Err(e)),
        }
        match parsed.RESTRICT_PROCESSES {
            Ok(v) => c.RESTRICT_PROCESSES = v,
            Err(e) => return Some(Err(e)),
        }
        match parsed.ALLOW_PROCESSES {
            Ok(v) => c.ALLOW_PROCESSES = v,
            Err(e) => return Some(Err(e)),
        }
        Some(Ok(c))
    }

    /// Parses the settings (see `spec_parse`), with the outcomes of the other
    /// parsers in `parsed`. Every numeric setting reached before the first
    /// failing setting must be supported.
    pub fn parse(&self, parsed: ParsedFields) -> (r: Result<DomainConfigSchema, ValidationError>)
        requires
            parse_reachable_supported(*self, parsed),
        ensures
            parse_agrees(r, spec_parse(*self, parsed)),
    {
        match self.try_parse(parsed) {
            Some(res) => res,
            None => {
                proof {
                    assert(false);
                }
                Err(ValidationError { message: None, violations: Vec::new() })
            },
        }
    }
}

/// Marks the validation of the start settings.
pub struct StartDomainConfigSchemaConstraint;

/// The state the validation of the start settings runs in.
pub struct StartDomainConfigSchemaState;

/// Whether the URL and process-id list checks accepted each of those
/// settings; the caller runs them and hands the answers in.
#[allow(non_snake_case)]
pub struct FieldChecks {
    pub GRAPHQL_URL: bool,
    pub UPLOADER_URL: bool,
    pub CHECKPOINT_GRAPHQL_URL: bool,
    pub ARWEAVE_URL: bool,
    pub PROCESS_IGNORE_ARWEAVE_CHECKPOINTS: bool,
    pub RESTRICT_PROCESSES: bool,
    pub ALLOW_PROCESSES: bool,
}

/// One violation of `field` with code `code` where `failed`, none
/// otherwise. The violation carries empty actual and expected values.
pub open spec fn flag(failed: bool, code: Seq<char>, field: Seq<char>) -> Seq<ViolationView> {
    if failed {
        seq![field_violation(code, field, Seq::empty(), Seq::empty())]
    } else {
        Seq::empty()
    }
}

/// Whether a numeric setting fails its check: it is absent, or its trimmed
/// text is not digits in underscore-separated groups.
pub open spec fn int_fails(val: Option<Seq<char>>) -> bool {
    match val {
        None => true,
        Some(s) => trimmed_match(s) != Some(true),
    }
}

pub(crate) fn push_if(violations: &mut Vec<ConstraintViolation>, failed: bool, code: &str, field: &str)
    ensures
        final(violations)@.map_values(|c: ConstraintViolation| c@) == old(violations)@.map_values(
            |c: ConstraintViolation| c@,
        ) + flag(failed, code@, field@),
{
    let ghost before = violations@;
    if failed {
        violations.push(invalid_value(code, field, String::new(), String::new()));
    }
    assert(violations@.map_values(|c: ConstraintViolation| c@) =~= before.map_values(
        |c: ConstraintViolation| c@,
    ) + flag(failed, code@, field@));
}

fn int_field_fails(val: &Option<String>, field: &str) -> (b: bool)
    ensures
        b == int_fails(val.deep_view()),
{
    PositiveIntSchemaConstraint.validate(val.clone(), field).is_err()
}

/// The violations of the start settings: that of each refused setting
/// (see `refused_at`), in the order the settings are checked.
#[verifier::opaque]
pub open spec fn spec_violations(s: StartDomainConfigSchema, checks: FieldChecks) -> Seq<ViolationView> {
    flags(refusals(s, checks))
}

/// Whether a sequence of violations holds a given violation.
#[verifier::opaque]
pub(crate) closed spec fn holds(v: Seq<ViolationView>, x: ViolationView) -> bool {
    v.contains(x)
}

pub(crate) proof fn lemma_holds_contains(v: Seq<ViolationView>)
    ensures
        forall|x: ViolationView| #[trigger] holds(v, x) == v.contains(x),
{
    reveal(holds);
}

/// A sequence of violations joined to another holds what either holds.
pub(crate) proof fn lemma_concat_holds(a: Seq<ViolationView>, b: Seq<ViolationView>, x: ViolationView)
    ensures
        holds(a + b, x) <==> (holds(a, x) || holds(b, x)),
{
    reveal(holds);
    if (a + b).contains(x) {
        let i = choose|i: int| 0 <= i < (a + b).len() && (a + b)[i] == x;
        if i < a.len() {
            assert(a[i] == x);
        } else {
            assert(b[i - a.len()] == x);
        }
    }
    if a.contains(x) {
        let i = choose|i: int| 0 <= i < a.len() && a[i] == x;
        assert((a + b)[i] == x);
    }
    if b.contains(x) {
        let i = choose|i: int| 0 <= i < b.len() && b[i] == x;
        assert((a + b)[i + a.len()] == x);
    }
}

/// A flag holds its violation exactly where it is raised.
pub(crate) proof fn lemma_flag_holds(failed: bool, code: Seq<char>, field: Seq<char>, x: ViolationView)
    ensures
        holds(flag(failed, code, field), x) <==> (failed && x == field_violation(
            code,
            field,
            Seq::empty(),
            Seq::empty(),
        )),
{
    reveal(holds);
    if failed {
        assert(flag(failed, code, field)[0] == field_violation(code, field, Seq::empty(), Seq::empty()));
    }
}

/// Whether the setting at a place in the order of `spec_violations` is
/// refused: numeric settings that fail `int_fails`, the switch where it is
/// not a boolean, URL and list settings their checks refused, and the
/// database URL, wallet and binary directory where absent or empty. The
/// checkpoint directory is refused where it is absent or empty, and also
/// where the database URL is empty, whose length that check measures.
pub open spec fn refused_at(s: StartDomainConfigSchema, checks: FieldChecks, i: int) -> bool {
    if i == 0 {
        int_fails(s.PROCESS_WASM_MEMORY_MAX_LIMIT.deep_view())
    } else if i == 1 {
        int_fails(s.PROCESS_WASM_COMPUTE_MAX_LIMIT.deep_view())
    } else if i == 2 {
        !checks.GRAPHQL_URL
    } else if i == 3 {
        !checks.UPLOADER_URL
    } else if i == 4 {
        !checks.CHECKPOINT_GRAPHQL_URL
    } else if i == 5 {
        !checks.ARWEAVE_URL
    } else if i == 6 {
        none_or_empty(s.DB_URL.deep_view())
    } else if i == 7 {
        none_or_empty(s.WALLET.deep_view())
    } else if i == 8 {
        int_fails(s.MEM_MONITOR_INTERVAL.deep_view())
    } else if i == 9 {
        int_fails(s.PROCESS_CHECKPOINT_CREATION_THROTTLE.deep_view())
    } else if i == 10 {
        !spec_is_boolean(s.DISABLE_PROCESS_CHECKPOINT_CREATION.deep_view())
    } else if i == 11 {
        int_fails(s.EAGER_CHECKPOINT_THRESHOLD.deep_view())
    } else if i == 12 {
        int_fails(s.WASM_EVALUATION_MAX_WORKERS.deep_view())
    } else if i == 13 {
        int_fails(s.WASM_INSTANCE_CACHE_MAX_SIZE.deep_view())
    } else if i == 14 {
        int_fails(s.WASM_MODULE_CACHE_MAX_SIZE.deep_view())
    } else if i == 15 {
        none_or_empty(s.WASM_BINARY_FILE_DIRECTORY.deep_view())
    } else if i == 16 {
        !checks.PROCESS_IGNORE_ARWEAVE_CHECKPOINTS
    } else if i == 17 {
        (none_or_empty(s.PROCESS_CHECKPOINT_FILE_DIRECTORY.deep_view()) || s.DB_URL->0@.len() < 1)
    } else if i == 18 {
        int_fails(s.PROCESS_MEMORY_CACHE_MAX_SIZE.deep_view())
    } else if i == 19 {
        int_fails(s.PROCESS_MEMORY_CACHE_TTL.deep_view())
    } else if i == 20 {
        int_fails(s.PROCESS_MEMORY_CACHE_CHECKPOINT_INTERVAL.deep_view())
    } else if i == 21 {
        int_fails(s.BUSY_THRESHOLD.deep_view())
    } else if i == 22 {
        !checks.RESTRICT_PROCESSES
    } else {
        !checks.ALLOW_PROCESSES
    }
}

/// Which settings are refused, one entry per setting in the order of
/// `spec_violations`.
#[verifier::opaque]
pub open spec fn refusals(s: StartDomainConfigSchema, checks: FieldChecks) -> Seq<bool> {
    Seq::new(24, |i: int| refused_at(s, checks, i))
}

/// Whether a violation is that of a refused setting.
#[verifier::opaque]
spec fn raised(r: Seq<bool>, x: ViolationView) -> bool {
    (r[0] && x == field_violation(INVALID_DIGITS_INTEGER@, "PROCESS_WASM_MEMORY_MAX_LIMIT"@, Seq::empty(), Seq::empty()))
    || (r[1] && x == field_violation(INVALID_DIGITS_INTEGER@, "PROCESS_WASM_COMPUTE_MAX_LIMIT"@, Seq::empty(), Seq::empty()))
    || (r[2] && x == field_violation(INVALID_URL@, "GRAPHQL_URL"@, Seq::empty(), Seq::empty()))
    || (r[3] && x == field_violation(INVALID_URL@, "UPLOADER_URL"@, Seq::empty(), Seq::empty()))
    || (r[4] && x == field_violation(INVALID_URL@, "CHECKPOINT_GRAPHQL_URL"@, Seq::empty(), Seq::empty()))
    || (r[5] && x == field_violation(INVALID_URL@, "ARWEAVE_URL"@, Seq::empty(), Seq::empty()))
    || (r[6] && x == field_violation(INVALID_URL@, "DB_URL"@, Seq::empty(), Seq::empty()))
    || (r[7] && x == field_violation(INVALID_WALLET@, "WALLET"@, Seq::empty(), Seq::empty()))
    || (r[8] && x == field_violation(INVALID_DIGITS_INTEGER@, "MEM_MONITOR_INTERVAL"@, Seq::empty(), Seq::empty()))
    || (r[9] && x == field_violation(INVALID_DIGITS_INTEGER@, "PROCESS_CHECKPOINT_CREATION_THROTTLE"@, Seq::empty(), Seq::empty()))
    || (r[10] && x == field_violation(INVALID_NOT_BOOLEAN@, "DISABLE_PROCESS_CHECKPOINT_CREATION"@, Seq::empty(), Seq::empty()))
    || (r[11] && x == field_violation(INVALID_DIGITS_INTEGER@, "EAGER_CHECKPOINT_THRESHOLD"@, Seq::empty(), Seq::empty()))
    || (r[12] && x == field_violation(INVALID_DIGITS_INTEGER@, "WASM_EVALUATION_MAX_WORKERS"@, Seq::empty(), Seq::empty()))
    || (r[13] && x == field_violation(INVALID_DIGITS_INTEGER@, "WASM_INSTANCE_CACHE_MAX_SIZE"@, Seq::empty(), Seq::empty()))
    || (r[14] && x == field_violation(INVALID_DIGITS_INTEGER@, "WASM_MODULE_CACHE_MAX_SIZE"@, Seq::empty(), Seq::empty()))
    || (r[15] && x == field_violation(INVALID_CHAR_COUNT_MIN@, "WASM_BINARY_FILE_DIRECTORY"@, Seq::empty(), Seq::empty()))
    || (r[16] && x == field_violation(INVALID_ARRAY@, "PROCESS_IGNORE_ARWEAVE_CHECKPOINTS"@, Seq::empty(), Seq::empty()))
    || (r[17] && x == field_violation(INVALID_CHAR_COUNT_MIN@, "PROCESS_CHECKPOINT_FILE_DIRECTORY"@, Seq::empty(), Seq::empty()))
    || (r[18] && x == field_violation(INVALID_DIGITS_INTEGER@, "PROCESS_MEMORY_CACHE_MAX_SIZE"@, Seq::empty(), Seq::empty()))
    || (r[19] && x == field_violation(INVALID_DIGITS_INTEGER@, "PROCESS_MEMORY_CACHE_TTL"@, Seq::empty(), Seq::empty()))
    || (r[20] && x == field_violation(INVALID_DIGITS_INTEGER@, "PROCESS_MEMORY_CACHE_CHECKPOINT_INTERVAL"@, Seq::empty(), Seq::empty()))
    || (r[21] && x == field_violation(INVALID_DIGITS_INTEGER@, "BUSY_THRESHOLD"@, Seq::empty(), Seq::empty()))
    || (r[22] && x == field_violation(INVALID_ARRAY@, "RESTRICT_PROCESSES"@, Seq::empty(), Seq::empty()))
    || (r[23] && x == field_violation(INVALID_ARRAY@, "ALLOW_PROCESSES"@, Seq::empty(), Seq::empty()))
}

/// The violations of the refused settings, one per setting and in the order
/// of `spec_violations`, each with its code.
#[verifier::opaque]
pub open spec fn flags(r: Seq<bool>) -> Seq<ViolationView> {
    flag(r[0], INVALID_DIGITS_INTEGER@, "PROCESS_WASM_MEMORY_MAX_LIMIT"@)
        + flag(r[1], INVALID_DIGITS_INTEGER@, "PROCESS_WASM_COMPUTE_MAX_LIMIT"@)
        + flag(r[2], INVALID_URL@, "GRAPHQL_URL"@)
        + flag(r[3], INVALID_URL@, "UPLOADER_URL"@)
        + flag(r[4], INVALID_URL@, "CHECKPOINT_GRAPHQL_URL"@)
        + flag(r[5], INVALID_URL@, "ARWEAVE_URL"@)
        + flag(r[6], INVALID_URL@, "DB_URL"@)
        + flag(r[7], INVALID_WALLET@, "WALLET"@)
        + flag(r[8], INVALID_DIGITS_INTEGER@, "MEM_MONITOR_INTERVAL"@)
        + flag(r[9], INVALID_DIGITS_INTEGER@, "PROCESS_CHECKPOINT_CREATION_THROTTLE"@)
        + flag(r[10], INVALID_NOT_BOOLEAN@, "DISABLE_PROCESS_CHECKPOINT_CREATION"@)
        + flag(r[11], INVALID_DIGITS_INTEGER@, "EAGER_CHECKPOINT_THRESHOLD"@)
        + flag(r[12], INVALID_DIGITS_INTEGER@, "WASM_EVALUATION_MAX_WORKERS"@)
        + flag(r[13], INVALID_DIGITS_INTEGER@, "WASM_INSTANCE_CACHE_MAX_SIZE"@)
        + flag(r[14], INVALID_DIGITS_INTEGER@, "WASM_MODULE_CACHE_MAX_SIZE"@)
        + flag(r[15], INVALID_CHAR_COUNT_MIN@, "WASM_BINARY_FILE_DIRECTORY"@)
        + flag(r[16], INVALID_ARRAY@, "PROCESS_IGNORE_ARWEAVE_CHECKPOINTS"@)
        + flag(r[17], INVALID_CHAR_COUNT_MIN@, "PROCESS_CHECKPOINT_FILE_DIRECTORY"@)
        + flag(r[18], INVALID_DIGITS_INTEGER@, "PROCESS_MEMORY_CACHE_MAX_SIZE"@)
        + flag(r[19], INVALID_DIGITS_INTEGER@, "PROCESS_MEMORY_CACHE_TTL"@)
        + flag(r[20], INVALID_DIGITS_INTEGER@, "PROCESS_MEMORY_CACHE_CHECKPOINT_INTERVAL"@)
        + flag(r[21], INVALID_DIGITS_INTEGER@, "BUSY_THRESHOLD"@)
        + flag(r[22], INVALID_ARRAY@, "RESTRICT_PROCESSES"@)
        + flag(r[23], INVALID_ARRAY@, "ALLOW_PROCESSES"@)
}

proof fn lemma_flags_hold(r: Seq<bool>, x: ViolationView)
    ensures
        holds(flags(r), x) <==> raised(r, x),
{
    reveal(raised);
    reveal(flags);
    lemma_flag_holds(r[0], INVALID_DIGITS_INTEGER@, "PROCESS_WASM_MEMORY_MAX_LIMIT"@, x);
    lemma_flag_holds(r[1], INVALID_DIGITS_INTEGER@, "PROCESS_WASM_COMPUTE_MAX_LIMIT"@, x);
    lemma_flag_holds(r[2], INVALID_URL@, "GRAPHQL_URL"@, x);
    lemma_flag_holds(r[3], INVALID_URL@, "UPLOADER_URL"@, x);
    lemma_flag_holds(r[4], INVALID_URL@, "CHECKPOINT_GRAPHQL_URL"@, x);
    lemma_flag_holds(r[5], INVALID_URL@, "ARWEAVE_URL"@, x);
    lemma_flag_holds(r[6], INVALID_URL@, "DB_URL"@, x);
    lemma_flag_holds(r[7], INVALID_WALLET@, "WALLET"@, x);
    lemma_flag_holds(r[8], INVALID_DIGITS_INTEGER@, "MEM_MONITOR_INTERVAL"@, x);
    lemma_flag_holds(r[9], INVALID_DIGITS_INTEGER@, "PROCESS_CHECKPOINT_CREATION_THROTTLE"@, x);
    lemma_flag_holds(r[10], INVALID_NOT_BOOLEAN@, "DISABLE_PROCESS_CHECKPOINT_CREATION"@, x);
    lemma_flag_holds(r[11], INVALID_DIGITS_INTEGER@, "EAGER_CHECKPOINT_THRESHOLD"@, x);
    lemma_flag_holds(r[12], INVALID_DIGITS_INTEGER@, "WASM_EVALUATION_MAX_WORKERS"@, x);
    lemma_flag_holds(r[13], INVALID_DIGITS_INTEGER@, "WASM_INSTANCE_CACHE_MAX_SIZE"@, x);
    lemma_flag_holds(r[14], INVALID_DIGITS_INTEGER@, "WASM_MODULE_CACHE_MAX_SIZE"@, x);
    lemma_flag_holds(r[15], INVALID_CHAR_COUNT_MIN@, "WASM_BINARY_FILE_DIRECTORY"@, x);
    lemma_flag_holds(r[16], INVALID_ARRAY@, "PROCESS_IGNORE_ARWEAVE_CHECKPOINTS"@, x);
    lemma_flag_holds(r[17], INVALID_CHAR_COUNT_MIN@, "PROCESS_CHECKPOINT_FILE_DIRECTORY"@, x);
    lemma_flag_holds(r[18], INVALID_DIGITS_INTEGER@, "PROCESS_MEMORY_CACHE_MAX_SIZE"@, x);
    lemma_flag_holds(r[19], INVALID_DIGITS_INTEGER@, "PROCESS_MEMORY_CACHE_TTL"@, x);
    lemma_flag_holds(r[20], INVALID_DIGITS_INTEGER@, "PROCESS_MEMORY_CACHE_CHECKPOINT_INTERVAL"@, x);
    lemma_flag_holds(r[21], INVALID_DIGITS_INTEGER@, "BUSY_THRESHOLD"@, x);
    lemma_flag_holds(r[22], INVALID_ARRAY@, "RESTRICT_PROCESSES"@, x);
    lemma_flag_holds(r[23], INVALID_ARRAY@, "ALLOW_PROCESSES"@, x);
    let s0 = flag(r[0], INVALID_DIGITS_INTEGER@, "PROCESS_WASM_MEMORY_MAX_LIMIT"@);
    let s1 = s0 + flag(r[1], INVALID_DIGITS_INTEGER@, "PROCESS_WASM_COMPUTE_MAX_LIMIT"@);
    lemma_concat_holds(s0, flag(r[1], INVALID_DIGITS_INTEGER@, "PROCESS_WASM_COMPUTE_MAX_LIMIT"@), x);
    let s2 = s1 + flag(r[2], INVALID_URL@, "GRAPHQL_URL"@);
    lemma_concat_holds(s1, flag(r[2], INVALID_URL@, "GRAPHQL_URL"@), x);
    let s3 = s2 + flag(r[3], INVALID_URL@, "UPLOADER_URL"@);
    lemma_concat_holds(s2, flag(r[3], INVALID_URL@, "UPLOADER_URL"@), x);
    let s4 = s3 + flag(r[4], INVALID_URL@, "CHECKPOINT_GRAPHQL_URL"@);
    lemma_concat_holds(s3, flag(r[4], INVALID_URL@, "CHECKPOINT_GRAPHQL_URL"@), x);
    let s5 = s4 + flag(r[5], INVALID_URL@, "ARWEAVE_URL"@);
    lemma_concat_holds(s4, flag(r[5], INVALID_URL@, "ARWEAVE_URL"@), x);
    let s6 = s5 + flag(r[6], INVALID_URL@, "DB_URL"@);
    lemma_concat_holds(s5, flag(r[6], INVALID_URL@, "DB_URL"@), x);
    let s7 = s6 + flag(r[7], INVALID_WALLET@, "WALLET"@);
    lemma_concat_holds(s6, flag(r[7], INVALID_WALLET@, "WALLET"@), x);
    let s8 = s7 + flag(r[8], INVALID_DIGITS_INTEGER@, "MEM_MONITOR_INTERVAL"@);
    lemma_concat_holds(s7, flag(r[8], INVALID_DIGITS_INTEGER@, "MEM_MONITOR_INTERVAL"@), x);
    let s9 = s8 + flag(r[9], INVALID_DIGITS_INTEGER@, "PROCESS_CHECKPOINT_CREATION_THROTTLE"@);
    lemma_concat_holds(s8, flag(r[9], INVALID_DIGITS_INTEGER@, "PROCESS_CHECKPOINT_CREATION_THROTTLE"@), x);
    let s10 = s9 + flag(r[10], INVALID_NOT_BOOLEAN@, "DISABLE_PROCESS_CHECKPOINT_CREATION"@);
    lemma_concat_holds(s9, flag(r[10], INVALID_NOT_BOOLEAN@, "DISABLE_PROCESS_CHECKPOINT_CREATION"@), x);
    let s11 = s10 + flag(r[11], INVALID_DIGITS_INTEGER@, "EAGER_CHECKPOINT_THRESHOLD"@);
    lemma_concat_holds(s10, flag(r[11], INVALID_DIGITS_INTEGER@, "EAGER_CHECKPOINT_THRESHOLD"@), x);
    let s12 = s11 + flag(r[12], INVALID_DIGITS_INTEGER@, "WASM_EVALUATION_MAX_WORKERS"@);
    lemma_concat_holds(s11, flag(r[12], INVALID_DIGITS_INTEGER@, "WASM_EVALUATION_MAX_WORKERS"@), x);
    let s13 = s12 + flag(r[13], INVALID_DIGITS_INTEGER@, "WASM_INSTANCE_CACHE_MAX_SIZE"@);
    lemma_concat_holds(s12, flag(r[13], INVALID_DIGITS_INTEGER@, "WASM_INSTANCE_CACHE_MAX_SIZE"@), x);
    let s14 = s13 + flag(r[14], INVALID_DIGITS_INTEGER@, "WASM_MODULE_CACHE_MAX_SIZE"@);
    lemma_concat_holds(s13, flag(r[14], INVALID_DIGITS_INTEGER@, "WASM_MODULE_CACHE_MAX_SIZE"@), x);
    let s15 = s14 + flag(r[15], INVALID_CHAR_COUNT_MIN@, "WASM_BINARY_FILE_DIRECTORY"@);
    lemma_concat_holds(s14, flag(r[15], INVALID_CHAR_COUNT_MIN@, "WASM_BINARY_FILE_DIRECTORY"@), x);
    let s16 = s15 + flag(r[16], INVALID_ARRAY@, "PROCESS_IGNORE_ARWEAVE_CHECKPOINTS"@);
    lemma_concat_holds(s15, flag(r[16], INVALID_ARRAY@, "PROCESS_IGNORE_ARWEAVE_CHECKPOINTS"@), x);
    let s17 = s16 + flag(r[17], INVALID_CHAR_COUNT_MIN@, "PROCESS_CHECKPOINT_FILE_DIRECTORY"@);
    lemma_concat_holds(s16, flag(r[17], INVALID_CHAR_COUNT_MIN@, "PROCESS_CHECKPOINT_FILE_DIRECTORY"@), x);
    let s18 = s17 + flag(r[18], INVALID_DIGITS_INTEGER@, "PROCESS_MEMORY_CACHE_MAX_SIZE"@);
    lemma_concat_holds(s17, flag(r[18], INVALID_DIGITS_INTEGER@, "PROCESS_MEMORY_CACHE_MAX_SIZE"@), x);
    let s19 = s18 + flag(r[19], INVALID_DIGITS_INTEGER@, "PROCESS_MEMORY_CACHE_TTL"@);
    lemma_concat_holds(s18, flag(r[19], INVALID_DIGITS_INTEGER@, "PROCESS_MEMORY_CACHE_TTL"@), x);
    let s20 = s19 + flag(r[20], INVALID_DIGITS_INTEGER@, "PROCESS_MEMORY_CACHE_CHECKPOINT_INTERVAL"@);
    lemma_concat_holds(s19, flag(r[20], INVALID_DIGITS_INTEGER@, "PROCESS_MEMORY_CACHE_CHECKPOINT_INTERVAL"@), x);
    let s21 = s20 + flag(r[21], INVALID_DIGITS_INTEGER@, "BUSY_THRESHOLD"@);
    lemma_concat_holds(s20, flag(r[21], INVALID_DIGITS_INTEGER@, "BUSY_THRESHOLD"@), x);
    let s22 = s21 + flag(r[22], INVALID_ARRAY@, "RESTRICT_PROCESSES"@);
    lemma_concat_holds(s21, flag(r[22], INVALID_ARRAY@, "RESTRICT_PROCESSES"@), x);
    let s23 = s22 + flag(r[23], INVALID_ARRAY@, "ALLOW_PROCESSES"@);
    lemma_concat_holds(s22, flag(r[23], INVALID_ARRAY@, "ALLOW_PROCESSES"@), x);
}

/// The setting names differ, so each violation is raised by its own
/// setting alone.
proof fn lemma_raised_each(r: Seq<bool>)
    ensures
        raised(r, field_violation(INVALID_DIGITS_INTEGER@, "PROCESS_WASM_MEMORY_MAX_LIMIT"@, Seq::empty(), Seq::empty())) <==> r[0],
        raised(r, field_violation(INVALID_DIGITS_INTEGER@, "PROCESS_WASM_COMPUTE_MAX_LIMIT"@, Seq::empty(), Seq::empty())) <==> r[1],
        raised(r, field_violation(INVALID_URL@, "GRAPHQL_URL"@, Seq::empty(), Seq::empty())) <==> r[2],
        raised(r, field_violation(INVALID_URL@, "UPLOADER_URL"@, Seq::empty(), Seq::empty())) <==> r[3],
        raised(r, field_violation(INVALID_URL@, "CHECKPOINT_GRAPHQL_URL"@, Seq::empty(), Seq::empty())) <==> r[4],
        raised(r, field_violation(INVALID_URL@, "ARWEAVE_URL"@, Seq::empty(), Seq::empty())) <==> r[5],
        raised(r, field_violation(INVALID_URL@, "DB_URL"@, Seq::empty(), Seq::empty())) <==> r[6],
        raised(r, field_violation(INVALID_WALLET@, "WALLET"@, Seq::empty(), Seq::empty())) <==> r[7],
        raised(r, field_violation(INVALID_DIGITS_INTEGER@, "MEM_MONITOR_INTERVAL"@, Seq::empty(), Seq::empty())) <==> r[8],
        raised(r, field_violation(INVALID_DIGITS_INTEGER@, "PROCESS_CHECKPOINT_CREATION_THROTTLE"@, Seq::empty(), Seq::empty())) <==> r[9],
        raised(r, field_violation(INVALID_NOT_BOOLEAN@, "DISABLE_PROCESS_CHECKPOINT_CREATION"@, Seq::empty(), Seq::empty())) <==> r[10],
        raised(r, field_violation(INVALID_DIGITS_INTEGER@, "EAGER_CHECKPOINT_THRESHOLD"@, Seq::empty(), Seq::empty())) <==> r[11],
        raised(r, field_violation(INVALID_DIGITS_INTEGER@, "WASM_EVALUATION_MAX_WORKERS"@, Seq::empty(), Seq::empty())) <==> r[12],
        raised(r, field_violation(INVALID_DIGITS_INTEGER@, "WASM_INSTANCE_CACHE_MAX_SIZE"@, Seq::empty(), Seq::empty())) <==> r[13],
        raised(r, field_violation(INVALID_DIGITS_INTEGER@, "WASM_MODULE_CACHE_MAX_SIZE"@, Seq::empty(), Seq::empty())) <==> r[14],
        raised(r, field_violation(INVALID_CHAR_COUNT_MIN@, "WASM_BINARY_FILE_DIRECTORY"@, Seq::empty(), Seq::empty())) <==> r[15],
        raised(r, field_violation(INVALID_ARRAY@, "PROCESS_IGNORE_ARWEAVE_CHECKPOINTS"@, Seq::empty(), Seq::empty())) <==> r[16],
        raised(r, field_violation(INVALID_CHAR_COUNT_MIN@, "PROCESS_CHECKPOINT_FILE_DIRECTORY"@, Seq::empty(), Seq::empty())) <==> r[17],
        raised(r, field_violation(INVALID_DIGITS_INTEGER@, "PROCESS_MEMORY_CACHE_MAX_SIZE"@, Seq::empty(), Seq::empty())) <==> r[18],
        raised(r, field_violation(INVALID_DIGITS_INTEGER@, "PROCESS_MEMORY_CACHE_TTL"@, Seq::empty(), Seq::empty())) <==> r[19],
        raised(r, field_violation(INVALID_DIGITS_INTEGER@, "PROCESS_MEMORY_CACHE_CHECKPOINT_INTERVAL"@, Seq::empty(), Seq::empty())) <==> r[20],
        raised(r, field_violation(INVALID_DIGITS_INTEGER@, "BUSY_THRESHOLD"@, Seq::empty(), Seq::empty())) <==> r[21],
        raised(r, field_violation(INVALID_ARRAY@, "RESTRICT_PROCESSES"@, Seq::empty(), Seq::empty())) <==> r[22],
        raised(r, field_violation(INVALID_ARRAY@, "ALLOW_PROCESSES"@, Seq::empty(), Seq::empty())) <==> r[23],
{
    reveal(raised);
    reveal_strlit("PROCESS_WASM_MEMORY_MAX_LIMIT");
    assert("PROCESS_WASM_MEMORY_MAX_LIMIT"@.len() == 29);
    reveal_strlit("PROCESS_WASM_COMPUTE_MAX_LIMIT");
    assert("PROCESS_WASM_COMPUTE_MAX_LIMIT"@.len() == 30);
    reveal_strlit("GRAPHQL_URL");
    assert("GRAPHQL_URL"@.len() == 11);
    reveal_strlit("UPLOADER_URL");
    assert("UPLOADER_URL"@.len() == 12);
    reveal_strlit("CHECKPOINT_GRAPHQL_URL");
    assert("CHECKPOINT_GRAPHQL_URL"@.len() == 22);
    reveal_strlit("ARWEAVE_URL");
    assert("ARWEAVE_URL"@.len() == 11);
    reveal_strlit("DB_URL");
    assert("DB_URL"@.len() == 6);
    reveal_strlit("WALLET");
    assert("WALLET"@.len() == 6);
    reveal_strlit("MEM_MONITOR_INTERVAL");
    assert("MEM_MONITOR_INTERVAL"@.len() == 20);
    reveal_strlit("PROCESS_CHECKPOINT_CREATION_THROTTLE");
    assert("PROCESS_CHECKPOINT_CREATION_THROTTLE"@.len() == 36);
    reveal_strlit("DISABLE_PROCESS_CHECKPOINT_CREATION");
    assert("DISABLE_PROCESS_CHECKPOINT_CREATION"@.len() == 35);
    reveal_strlit("EAGER_CHECKPOINT_THRESHOLD");
    assert("EAGER_CHECKPOINT_THRESHOLD"@.len() == 26);
    reveal_strlit("WASM_EVALUATION_MAX_WORKERS");
    assert("WASM_EVALUATION_MAX_WORKERS"@.len() == 27);
    reveal_strlit("WASM_INSTANCE_CACHE_MAX_SIZE");
    assert("WASM_INSTANCE_CACHE_MAX_SIZE"@.len() == 28);
    reveal_strlit("WASM_MODULE_CACHE_MAX_SIZE");
    assert("WASM_MODULE_CACHE_MAX_SIZE"@.len() == 26);
    reveal_strlit("WASM_BINARY_FILE_DIRECTORY");
    assert("WASM_BINARY_FILE_DIRECTORY"@.len() == 26);
    reveal_strlit("PROCESS_IGNORE_ARWEAVE_CHECKPOINTS");
    assert("PROCESS_IGNORE_ARWEAVE_CHECKPOINTS"@.len() == 34);
    reveal_strlit("PROCESS_CHECKPOINT_FILE_DIRECTORY");
    assert("PROCESS_CHECKPOINT_FILE_DIRECTORY"@.len() == 33);
    reveal_strlit("PROCESS_MEMORY_CACHE_MAX_SIZE");
    assert("PROCESS_MEMORY_CACHE_MAX_SIZE"@.len() == 29);
    reveal_strlit("PROCESS_MEMORY_CACHE_TTL");
    assert("PROCESS_MEMORY_CACHE_TTL"@.len() == 24);
    reveal_strlit("PROCESS_MEMORY_CACHE_CHECKPOINT_INTERVAL");
    assert("PROCESS_MEMORY_CACHE_CHECKPOINT_INTERVAL"@.len() == 40);
    reveal_strlit("BUSY_THRESHOLD");
    assert("BUSY_THRESHOLD"@.len() == 14);
    reveal_strlit("RESTRICT_PROCESSES");
    assert("RESTRICT_PROCESSES"@.len() == 18);
    reveal_strlit("ALLOW_PROCESSES");
    assert("ALLOW_PROCESSES"@.len() == 15);
    assert("PROCESS_WASM_MEMORY_MAX_LIMIT"@[8] != "PROCESS_MEMORY_CACHE_MAX_SIZE"@[8]);
    assert("GRAPHQL_URL"@[0] != "ARWEAVE_URL"@[0]);
    assert("DB_URL"@[0] != "WALLET"@[0]);
    assert("EAGER_CHECKPOINT_THRESHOLD"@[0] != "WASM_MODULE_CACHE_MAX_SIZE"@[0]);
    assert("EAGER_CHECKPOINT_THRESHOLD"@[0] != "WASM_BINARY_FILE_DIRECTORY"@[0]);
    assert("WASM_MODULE_CACHE_MAX_SIZE"@[5] != "WASM_BINARY_FILE_DIRECTORY"@[5]);
}

proof fn lemma_refusals_each(s: StartDomainConfigSchema, checks: FieldChecks)
    ensures
        refusals(s, checks)[0] == int_fails(s.PROCESS_WASM_MEMORY_MAX_LIMIT.deep_view()),
        refusals(s, checks)[1] == int_fails(s.PROCESS_WASM_COMPUTE_MAX_LIMIT.deep_view()),
        refusals(s, checks)[2] == !checks.GRAPHQL_URL,
        refusals(s, checks)[3] == !checks.UPLOADER_URL,
        refusals(s, checks)[4] == !checks.CHECKPOINT_GRAPHQL_URL,
        refusals(s, checks)[5] == !checks.ARWEAVE_URL,
        refusals(s, checks)[6] == none_or_empty(s.DB_URL.deep_view()),
        refusals(s, checks)[7] == none_or_empty(s.WALLET.deep_view()),
        refusals(s, checks)[8] == int_fails(s.MEM_MONITOR_INTERVAL.deep_view()),
        refusals(s, checks)[9] == int_fails(s.PROCESS_CHECKPOINT_CREATION_THROTTLE.deep_view()),
        refusals(s, checks)[10] == !spec_is_boolean(s.DISABLE_PROCESS_CHECKPOINT_CREATION.deep_view()),
        refusals(s, checks)[11] == int_fails(s.EAGER_CHECKPOINT_THRESHOLD.deep_view()),
        refusals(s, checks)[12] == int_fails(s.WASM_EVALUATION_MAX_WORKERS.deep_view()),
        refusals(s, checks)[13] == int_fails(s.WASM_INSTANCE_CACHE_MAX_SIZE.deep_view()),
        refusals(s, checks)[14] == int_fails(s.WASM_MODULE_CACHE_MAX_SIZE.deep_view()),
        refusals(s, checks)[15] == none_or_empty(s.WASM_BINARY_FILE_DIRECTORY.deep_view()),
        refusals(s, checks)[16] == !checks.PROCESS_IGNORE_ARWEAVE_CHECKPOINTS,
        refusals(s, checks)[17] == (none_or_empty(s.PROCESS_CHECKPOINT_FILE_DIRECTORY.deep_view()) || s.DB_URL->0@.len() < 1),
        refusals(s, checks)[18] == int_fails(s.PROCESS_MEMORY_CACHE_MAX_SIZE.deep_view()),
        refusals(s, checks)[19] == int_fails(s.PROCESS_MEMORY_CACHE_TTL.deep_view()),
        refusals(s, checks)[20] == int_fails(s.PROCESS_MEMORY_CACHE_CHECKPOINT_INTERVAL.deep_view()),
        refusals(s, checks)[21] == int_fails(s.BUSY_THRESHOLD.deep_view()),
        refusals(s, checks)[22] == !checks.RESTRICT_PROCESSES,
        refusals(s, checks)[23] == !checks.ALLOW_PROCESSES,
{
    reveal(refusals);
}

/// Only the start settings' own names occur among their violations.
pub(crate) proof fn lemma_violation_names(s: StartDomainConfigSchema, checks: FieldChecks, x: ViolationView)
    requires
        spec_violations(s, checks).contains(x),
    ensures
        x.field == "PROCESS_WASM_MEMORY_MAX_LIMIT"@
            || x.field == "PROCESS_WASM_COMPUTE_MAX_LIMIT"@
            || x.field == "GRAPHQL_URL"@
            || x.field == "UPLOADER_URL"@
            || x.field == "CHECKPOINT_GRAPHQL_URL"@
            || x.field == "ARWEAVE_URL"@
            || x.field == "DB_URL"@
            || x.field == "WALLET"@
            || x.field == "MEM_MONITOR_INTERVAL"@
            || x.field == "PROCESS_CHECKPOINT_CREATION_THROTTLE"@
            || x.field == "DISABLE_PROCESS_CHECKPOINT_CREATION"@
            || x.field == "EAGER_CHECKPOINT_THRESHOLD"@
            || x.field == "WASM_EVALUATION_MAX_WORKERS"@
            || x.field == "WASM_INSTANCE_CACHE_MAX_SIZE"@
            || x.field == "WASM_MODULE_CACHE_MAX_SIZE"@
            || x.field == "WASM_BINARY_FILE_DIRECTORY"@
            || x.field == "PROCESS_IGNORE_ARWEAVE_CHECKPOINTS"@
            || x.field == "PROCESS_CHECKPOINT_FILE_DIRECTORY"@
            || x.field == "PROCESS_MEMORY_CACHE_MAX_SIZE"@
            || x.field == "PROCESS_MEMORY_CACHE_TTL"@
            || x.field == "PROCESS_MEMORY_CACHE_CHECKPOINT_INTERVAL"@
            || x.field == "BUSY_THRESHOLD"@
            || x.field == "RESTRICT_PROCESSES"@
            || x.field == "ALLOW_PROCESSES"@,
{
    reveal(spec_violations);
    reveal(raised);
    lemma_holds_contains(spec_violations(s, checks));
    lemma_flags_hold(refusals(s, checks), x);
}


/// Validation reports a setting exactly where its check fails: each
/// setting's violation, with its code, is among the violations exactly when
/// the setting is refused.
pub proof fn validation_reports_each_refused_setting(s: StartDomainConfigSchema, checks: FieldChecks)
    ensures
        spec_violations(s, checks).contains(field_violation(INVALID_DIGITS_INTEGER@, "PROCESS_WASM_MEMORY_MAX_LIMIT"@, Seq::empty(), Seq::empty())) <==> int_fails(s.PROCESS_WASM_MEMORY_MAX_LIMIT.deep_view()),
        spec_violations(s, checks).contains(field_violation(INVALID_DIGITS_INTEGER@, "PROCESS_WASM_COMPUTE_MAX_LIMIT"@, Seq::empty(), Seq::empty())) <==> int_fails(s.PROCESS_WASM_COMPUTE_MAX_LIMIT.deep_view()),
        spec_violations(s, checks).contains(field_violation(INVALID_URL@, "GRAPHQL_URL"@, Seq::empty(), Seq::empty())) <==> !checks.GRAPHQL_URL,
        spec_violations(s, checks).contains(field_violation(INVALID_URL@, "UPLOADER_URL"@, Seq::empty(), Seq::empty())) <==> !checks.UPLOADER_URL,
        spec_violations(s, checks).contains(field_violation(INVALID_URL@, "CHECKPOINT_GRAPHQL_URL"@, Seq::empty(), Seq::empty())) <==> !checks.CHECKPOINT_GRAPHQL_URL,
        spec_violations(s, checks).contains(field_violation(INVALID_URL@, "ARWEAVE_URL"@, Seq::empty(), Seq::empty())) <==> !checks.ARWEAVE_URL,
        spec_violations(s, checks).contains(field_violation(INVALID_URL@, "DB_URL"@, Seq::empty(), Seq::empty())) <==> none_or_empty(s.DB_URL.deep_view()),
        spec_violations(s, checks).contains(field_violation(INVALID_WALLET@, "WALLET"@, Seq::empty(), Seq::empty())) <==> none_or_empty(s.WALLET.deep_view()),
        spec_violations(s, checks).contains(field_violation(INVALID_DIGITS_INTEGER@, "MEM_MONITOR_INTERVAL"@, Seq::empty(), Seq::empty())) <==> int_fails(s.MEM_MONITOR_INTERVAL.deep_view()),
        spec_violations(s, checks).contains(field_violation(INVALID_DIGITS_INTEGER@, "PROCESS_CHECKPOINT_CREATION_THROTTLE"@, Seq::empty(), Seq::empty())) <==> int_fails(s.PROCESS_CHECKPOINT_CREATION_THROTTLE.deep_view()),
        spec_violations(s, checks).contains(field_violation(INVALID_NOT_BOOLEAN@, "DISABLE_PROCESS_CHECKPOINT_CREATION"@, Seq::empty(), Seq::empty())) <==> !spec_is_boolean(s.DISABLE_PROCESS_CHECKPOINT_CREATION.deep_view()),
        spec_violations(s, checks).contains(field_violation(INVALID_DIGITS_INTEGER@, "EAGER_CHECKPOINT_THRESHOLD"@, Seq::empty(), Seq::empty())) <==> int_fails(s.EAGER_CHECKPOINT_THRESHOLD.deep_view()),
        spec_violations(s, checks).contains(field_violation(INVALID_DIGITS_INTEGER@, "WASM_EVALUATION_MAX_WORKERS"@, Seq::empty(), Seq::empty())) <==> int_fails(s.WASM_EVALUATION_MAX_WORKERS.deep_view()),
        spec_violations(s, checks).contains(field_violation(INVALID_DIGITS_INTEGER@, "WASM_INSTANCE_CACHE_MAX_SIZE"@, Seq::empty(), Seq::empty())) <==> int_fails(s.WASM_INSTANCE_CACHE_MAX_SIZE.deep_view()),
        spec_violations(s, checks).contains(field_violation(INVALID_DIGITS_INTEGER@, "WASM_MODULE_CACHE_MAX_SIZE"@, Seq::empty(), Seq::empty())) <==> int_fails(s.WASM_MODULE_CACHE_MAX_SIZE.deep_view()),
        spec_violations(s, checks).contains(field_violation(INVALID_CHAR_COUNT_MIN@, "WASM_BINARY_FILE_DIRECTORY"@, Seq::empty(), Seq::empty())) <==> none_or_empty(s.WASM_BINARY_FILE_DIRECTORY.deep_view()),
        spec_violations(s, checks).contains(field_violation(INVALID_ARRAY@, "PROCESS_IGNORE_ARWEAVE_CHECKPOINTS"@, Seq::empty(), Seq::empty())) <==> !checks.PROCESS_IGNORE_ARWEAVE_CHECKPOINTS,
        spec_violations(s, checks).contains(field_violation(INVALID_CHAR_COUNT_MIN@, "PROCESS_CHECKPOINT_FILE_DIRECTORY"@, Seq::empty(), Seq::empty())) <==> (none_or_empty(s.PROCESS_CHECKPOINT_FILE_DIRECTORY.deep_view()) || s.DB_URL->0@.len() < 1),
        spec_violations(s, checks).contains(field_violation(INVALID_DIGITS_INTEGER@, "PROCESS_MEMORY_CACHE_MAX_SIZE"@, Seq::empty(), Seq::empty())) <==> int_fails(s.PROCESS_MEMORY_CACHE_MAX_SIZE.deep_view()),
        spec_violations(s, checks).contains(field_violation(INVALID_DIGITS_INTEGER@, "PROCESS_MEMORY_CACHE_TTL"@, Seq::empty(), Seq::empty())) <==> int_fails(s.PROCESS_MEMORY_CACHE_TTL.deep_view()),
        spec_violations(s, checks).contains(field_violation(INVALID_DIGITS_INTEGER@, "PROCESS_MEMORY_CACHE_CHECKPOINT_INTERVAL"@, Seq::empty(), Seq::empty())) <==> int_fails(s.PROCESS_MEMORY_CACHE_CHECKPOINT_INTERVAL.deep_view()),
        spec_violations(s, checks).contains(field_violation(INVALID_DIGITS_INTEGER@, "BUSY_THRESHOLD"@, Seq::empty(), Seq::empty())) <==> int_fails(s.BUSY_THRESHOLD.deep_view()),
        spec_violations(s, checks).contains(field_violation(INVALID_ARRAY@, "RESTRICT_PROCESSES"@, Seq::empty(), Seq::empty())) <==> !checks.RESTRICT_PROCESSES,
        spec_violations(s, checks).contains(field_violation(INVALID_ARRAY@, "ALLOW_PROCESSES"@, Seq::empty(), Seq::empty())) <==> !checks.ALLOW_PROCESSES,
{
    let r = refusals(s, checks);
    lemma_holds_contains(spec_violations(s, checks));
    reveal(spec_violations);
    lemma_refusals_each(s, checks);
    lemma_raised_each(r);
    lemma_flags_hold(r, field_violation(INVALID_DIGITS_INTEGER@, "PROCESS_WASM_MEMORY_MAX_LIMIT"@, Seq::empty(), Seq::empty()));
    lemma_flags_hold(r, field_violation(INVALID_DIGITS_INTEGER@, "PROCESS_WASM_COMPUTE_MAX_LIMIT"@, Seq::empty(), Seq::empty()));
    lemma_flags_hold(r, field_violation(INVALID_URL@, "GRAPHQL_URL"@, Seq::empty(), Seq::empty()));
    lemma_flags_hold(r, field_violation(INVALID_URL@, "UPLOADER_URL"@, Seq::empty(), Seq::empty()));
    lemma_flags_hold(r, field_violation(INVALID_URL@, "CHECKPOINT_GRAPHQL_URL"@, Seq::empty(), Seq::empty()));
    lemma_flags_hold(r, field_violation(INVALID_URL@, "ARWEAVE_URL"@, Seq::empty(), Seq::empty()));
    lemma_flags_hold(r, field_violation(INVALID_URL@, "DB_URL"@, Seq::empty(), Seq::empty()));
    lemma_flags_hold(r, field_violation(INVALID_WALLET@, "WALLET"@, Seq::empty(), Seq::empty()));
    lemma_flags_hold(r, field_violation(INVALID_DIGITS_INTEGER@, "MEM_MONITOR_INTERVAL"@, Seq::empty(), Seq::empty()));
    lemma_flags_hold(r, field_violation(INVALID_DIGITS_INTEGER@, "PROCESS_CHECKPOINT_CREATION_THROTTLE"@, Seq::empty(), Seq::empty()));
    lemma_flags_hold(r, field_violation(INVALID_NOT_BOOLEAN@, "DISABLE_PROCESS_CHECKPOINT_CREATION"@, Seq::empty(), Seq::empty()));
    lemma_flags_hold(r, field_violation(INVALID_DIGITS_INTEGER@, "EAGER_CHECKPOINT_THRESHOLD"@, Seq::empty(), Seq::empty()));
    lemma_flags_hold(r, field_violation(INVALID_DIGITS_INTEGER@, "WASM_EVALUATION_MAX_WORKERS"@, Seq::empty(), Seq::empty()));
    lemma_flags_hold(r, field_violation(INVALID_DIGITS_INTEGER@, "WASM_INSTANCE_CACHE_MAX_SIZE"@, Seq::empty(), Seq::empty()));
    lemma_flags_hold(r, field_violation(INVALID_DIGITS_INTEGER@, "WASM_MODULE_CACHE_MAX_SIZE"@, Seq::empty(), Seq::empty()));
    lemma_flags_hold(r, field_violation(INVALID_CHAR_COUNT_MIN@, "WASM_BINARY_FILE_DIRECTORY"@, Seq::empty(), Seq::empty()));
    lemma_flags_hold(r, field_violation(INVALID_ARRAY@, "PROCESS_IGNORE_ARWEAVE_CHECKPOINTS"@, Seq::empty(), Seq::empty()));
    lemma_flags_hold(r, field_violation(INVALID_CHAR_COUNT_MIN@, "PROCESS_CHECKPOINT_FILE_DIRECTORY"@, Seq::empty(), Seq::empty()));
    lemma_flags_hold(r, field_violation(INVALID_DIGITS_INTEGER@, "PROCESS_MEMORY_CACHE_MAX_SIZE"@, Seq::empty(), Seq::empty()));
    lemma_flags_hold(r, field_violation(INVALID_DIGITS_INTEGER@, "PROCESS_MEMORY_CACHE_TTL"@, Seq::empty(), Seq::empty()));
    lemma_flags_hold(r, field_violation(INVALID_DIGITS_INTEGER@, "PROCESS_MEMORY_CACHE_CHECKPOINT_INTERVAL"@, Seq::empty(), Seq::empty()));
    lemma_flags_hold(r, field_violation(INVALID_DIGITS_INTEGER@, "BUSY_THRESHOLD"@, Seq::empty(), Seq::empty()));
    lemma_flags_hold(r, field_violation(INVALID_ARRAY@, "RESTRICT_PROCESSES"@, Seq::empty(), Seq::empty()));
    lemma_flags_hold(r, field_violation(INVALID_ARRAY@, "ALLOW_PROCESSES"@, Seq::empty(), Seq::empty()));
}

impl StartDomainConfigSchema {
    fn check_limits_and_urls(&self, checks: &FieldChecks) -> (v: Vec<ConstraintViolation>)
        ensures
            v@.map_values(|c: ConstraintViolation| c@) == flag(refusals(*self, *checks)[0], INVALID_DIGITS_INTEGER@, "PROCESS_WASM_MEMORY_MAX_LIMIT"@)
                + flag(refusals(*self, *checks)[1], INVALID_DIGITS_INTEGER@, "PROCESS_WASM_COMPUTE_MAX_LIMIT"@)
                + flag(refusals(*self, *checks)[2], INVALID_URL@, "GRAPHQL_URL"@)
                + flag(refusals(*self, *checks)[3], INVALID_URL@, "UPLOADER_URL"@)
                + flag(refusals(*self, *checks)[4], INVALID_URL@, "CHECKPOINT_GRAPHQL_URL"@)
                + flag(refusals(*self, *checks)[5], INVALID_URL@, "ARWEAVE_URL"@)
                + flag(refusals(*self, *checks)[6], INVALID_URL@, "DB_URL"@)
                + flag(refusals(*self, *checks)[7], INVALID_WALLET@, "WALLET"@),
    {
        let mut violations: Vec<ConstraintViolation> = Vec::new();
        let ghost start = violations@.map_values(|c: ConstraintViolation| c@);
        proof {
            lemma_refusals_each(*self, *checks);
        }
        let failed = int_field_fails(&self.PROCESS_WASM_MEMORY_MAX_LIMIT, "PROCESS_WASM_MEMORY_MAX_LIMIT");
        push_if(&mut violations, failed, INVALID_DIGITS_INTEGER, "PROCESS_WASM_MEMORY_MAX_LIMIT");
        let failed = int_field_fails(&self.PROCESS_WASM_COMPUTE_MAX_LIMIT, "PROCESS_WASM_COMPUTE_MAX_LIMIT");
        push_if(&mut violations, failed, INVALID_DIGITS_INTEGER, "PROCESS_WASM_COMPUTE_MAX_LIMIT");
        let failed = !checks.GRAPHQL_URL;
        push_if(&mut violations, failed, INVALID_URL, "GRAPHQL_URL");
        let failed = !checks.UPLOADER_URL;
        push_if(&mut violations, failed, INVALID_URL, "UPLOADER_URL");
        let failed = !checks.CHECKPOINT_GRAPHQL_URL;
        push_if(&mut violations, failed, INVALID_URL, "CHECKPOINT_GRAPHQL_URL");
        let failed = !checks.ARWEAVE_URL;
        push_if(&mut violations, failed, INVALID_URL, "ARWEAVE_URL");
        let failed = self.DB_URL.is_none_or_empty();
        push_if(&mut violations, failed, INVALID_URL, "DB_URL");
        let failed = self.WALLET.is_none_or_empty();
        push_if(&mut violations, failed, INVALID_WALLET, "WALLET");
        assert(start =~= Seq::<ViolationView>::empty());
        assert(violations@.map_values(|c: ConstraintViolation| c@) =~= flag(refusals(*self, *checks)[0], INVALID_DIGITS_INTEGER@, "PROCESS_WASM_MEMORY_MAX_LIMIT"@)
            + flag(refusals(*self, *checks)[1], INVALID_DIGITS_INTEGER@, "PROCESS_WASM_COMPUTE_MAX_LIMIT"@)
            + flag(refusals(*self, *checks)[2], INVALID_URL@, "GRAPHQL_URL"@)
            + flag(refusals(*self, *checks)[3], INVALID_URL@, "UPLOADER_URL"@)
            + flag(refusals(*self, *checks)[4], INVALID_URL@, "CHECKPOINT_GRAPHQL_URL"@)
            + flag(refusals(*self, *checks)[5], INVALID_URL@, "ARWEAVE_URL"@)
            + flag(refusals(*self, *checks)[6], INVALID_URL@, "DB_URL"@)
            + flag(refusals(*self, *checks)[7], INVALID_WALLET@, "WALLET"@));
        violations
    }

    fn check_intervals_and_caches(&self, checks: &FieldChecks, violations: &mut Vec<ConstraintViolation>)
        ensures
            final(violations)@.map_values(|c: ConstraintViolation| c@) == old(violations)@.map_values(
                |c: ConstraintViolation| c@,
            ) + flag(refusals(*self, *checks)[8], INVALID_DIGITS_INTEGER@, "MEM_MONITOR_INTERVAL"@)
                + flag(refusals(*self, *checks)[9], INVALID_DIGITS_INTEGER@, "PROCESS_CHECKPOINT_CREATION_THROTTLE"@)
                + flag(refusals(*self, *checks)[10], INVALID_NOT_BOOLEAN@, "DISABLE_PROCESS_CHECKPOINT_CREATION"@)
                + flag(refusals(*self, *checks)[11], INVALID_DIGITS_INTEGER@, "EAGER_CHECKPOINT_THRESHOLD"@)
                + flag(refusals(*self, *checks)[12], INVALID_DIGITS_INTEGER@, "WASM_EVALUATION_MAX_WORKERS"@)
                + flag(refusals(*self, *checks)[13], INVALID_DIGITS_INTEGER@, "WASM_INSTANCE_CACHE_MAX_SIZE"@)
                + flag(refusals(*self, *checks)[14], INVALID_DIGITS_INTEGER@, "WASM_MODULE_CACHE_MAX_SIZE"@)
                + flag(refusals(*self, *checks)[15], INVALID_CHAR_COUNT_MIN@, "WASM_BINARY_FILE_DIRECTORY"@),
    {
        let ghost start = violations@.map_values(|c: ConstraintViolation| c@);
        proof {
            lemma_refusals_each(*self, *checks);
        }
        let failed = int_field_fails(&self.MEM_MONITOR_INTERVAL, "MEM_MONITOR_INTERVAL");
        push_if(violations, failed, INVALID_DIGITS_INTEGER, "MEM_MONITOR_INTERVAL");
        let failed = int_field_fails(&self.PROCESS_CHECKPOINT_CREATION_THROTTLE, "PROCESS_CHECKPOINT_CREATION_THROTTLE");
        push_if(violations, failed, INVALID_DIGITS_INTEGER, "PROCESS_CHECKPOINT_CREATION_THROTTLE");
        let failed = !TruthyConstraint.is_boolean(self.DISABLE_PROCESS_CHECKPOINT_CREATION.clone());
        push_if(violations, failed, INVALID_NOT_BOOLEAN, "DISABLE_PROCESS_CHECKPOINT_CREATION");
        let failed = int_field_fails(&self.EAGER_CHECKPOINT_THRESHOLD, "EAGER_CHECKPOINT_THRESHOLD");
        push_if(violations, failed, INVALID_DIGITS_INTEGER, "EAGER_CHECKPOINT_THRESHOLD");
        let failed = int_field_fails(&self.WASM_EVALUATION_MAX_WORKERS, "WASM_EVALUATION_MAX_WORKERS");
        push_if(violations, failed, INVALID_DIGITS_INTEGER, "WASM_EVALUATION_MAX_WORKERS");
        let failed = int_field_fails(&self.WASM_INSTANCE_CACHE_MAX_SIZE, "WASM_INSTANCE_CACHE_MAX_SIZE");
        push_if(violations, failed, INVALID_DIGITS_INTEGER, "WASM_INSTANCE_CACHE_MAX_SIZE");
        let failed = int_field_fails(&self.WASM_MODULE_CACHE_MAX_SIZE, "WASM_MODULE_CACHE_MAX_SIZE");
        push_if(violations, failed, INVALID_DIGITS_INTEGER, "WASM_MODULE_CACHE_MAX_SIZE");
        let failed = self.WASM_BINARY_FILE_DIRECTORY.is_none_or_empty();
        push_if(violations, failed, INVALID_CHAR_COUNT_MIN, "WASM_BINARY_FILE_DIRECTORY");
    }

    fn check_directories_and_lists(&self, checks: &FieldChecks, violations: &mut Vec<ConstraintViolation>)
        requires
            !none_or_empty(self.PROCESS_CHECKPOINT_FILE_DIRECTORY.deep_view()) ==> self.DB_URL is Some,
        ensures
            final(violations)@.map_values(|c: ConstraintViolation| c@) == old(violations)@.map_values(
                |c: ConstraintViolation| c@,
            ) + flag(refusals(*self, *checks)[16], INVALID_ARRAY@, "PROCESS_IGNORE_ARWEAVE_CHECKPOINTS"@)
                + flag(refusals(*self, *checks)[17], INVALID_CHAR_COUNT_MIN@, "PROCESS_CHECKPOINT_FILE_DIRECTORY"@)
                + flag(refusals(*self, *checks)[18], INVALID_DIGITS_INTEGER@, "PROCESS_MEMORY_CACHE_MAX_SIZE"@)
                + flag(refusals(*self, *checks)[19], INVALID_DIGITS_INTEGER@, "PROCESS_MEMORY_CACHE_TTL"@)
                + flag(refusals(*self, *checks)[20], INVALID_DIGITS_INTEGER@, "PROCESS_MEMORY_CACHE_CHECKPOINT_INTERVAL"@)
                + flag(refusals(*self, *checks)[21], INVALID_DIGITS_INTEGER@, "BUSY_THRESHOLD"@)
                + flag(refusals(*self, *checks)[22], INVALID_ARRAY@, "RESTRICT_PROCESSES"@)
                + flag(refusals(*self, *checks)[23], INVALID_ARRAY@, "ALLOW_PROCESSES"@),
    {
        let ghost start = violations@.map_values(|c: ConstraintViolation| c@);
        proof {
            lemma_refusals_each(*self, *checks);
        }
        let failed = !checks.PROCESS_IGNORE_ARWEAVE_CHECKPOINTS;
        push_if(violations, failed, INVALID_ARRAY, "PROCESS_IGNORE_ARWEAVE_CHECKPOINTS");
        let failed = self.PROCESS_CHECKPOINT_FILE_DIRECTORY.is_none_or_empty() || (match &self.DB_URL {
            Some(u) => u.as_str().unicode_len() < 1,
            None => true,
        });
        push_if(violations, failed, INVALID_CHAR_COUNT_MIN, "PROCESS_CHECKPOINT_FILE_DIRECTORY");
        let failed = int_field_fails(&self.PROCESS_MEMORY_CACHE_MAX_SIZE, "PROCESS_MEMORY_CACHE_MAX_SIZE");
        push_if(violations, failed, INVALID_DIGITS_INTEGER, "PROCESS_MEMORY_CACHE_MAX_SIZE");
        let failed = int_field_fails(&self.PROCESS_MEMORY_CACHE_TTL, "PROCESS_MEMORY_CACHE_TTL");
        push_if(violations, failed, INVALID_DIGITS_INTEGER, "PROCESS_MEMORY_CACHE_TTL");
        let failed = int_field_fails(&self.PROCESS_MEMORY_CACHE_CHECKPOINT_INTERVAL, "PROCESS_MEMORY_CACHE_CHECKPOINT_INTERVAL");
        push_if(violations, failed, INVALID_DIGITS_INTEGER, "PROCESS_MEMORY_CACHE_CHECKPOINT_INTERVAL");
        let failed = int_field_fails(&self.BUSY_THRESHOLD, "BUSY_THRESHOLD");
        push_if(violations, failed, INVALID_DIGITS_INTEGER, "BUSY_THRESHOLD");
        let failed = !checks.RESTRICT_PROCESSES;
        push_if(violations, failed, INVALID_ARRAY, "RESTRICT_PROCESSES");
        let failed = !checks.ALLOW_PROCESSES;
        push_if(violations, failed, INVALID_ARRAY, "ALLOW_PROCESSES");
    }

    /// Validates the start settings (see `spec_violations`): `Ok` with the
    /// settings where nothing is violated, otherwise every violation. The
    /// checkpoint directory's check reads the database URL, which must then
    /// be present.
    pub fn validate(
        self,
        _context: &StartDomainConfigSchemaState,
        _constraint: &StartDomainConfigSchemaConstraint,
        checks: &FieldChecks,
    ) -> (r: Result<Self, ValidationError>)
        requires
            !none_or_empty(self.PROCESS_CHECKPOINT_FILE_DIRECTORY.deep_view()) ==> self.DB_URL is Some,
        ensures
            ({
                let v = spec_violations(self, *checks);
                match r {
                    Ok(x) => v.len() == 0 && x == self,
                    Err(e) => v.len() > 0 && e@ == ValidationErrorView { message: None, violations: v },
                }
            }),
    {
        proof {
            reveal(spec_violations);
            reveal(flags);
        }
        let mut violations = self.check_limits_and_urls(checks);
        self.check_intervals_and_caches(checks, &mut violations);
        self.check_directories_and_lists(checks, &mut violations);
        assert(violations@.map_values(|c: ConstraintViolation| c@) == spec_violations(self, *checks));
        if violations.len() > 0 {
            return Err(ValidationError { message: None, violations });
        }
        Ok(self)
    }

    /// Validates the start settings where the checkpoint directory's check
    /// has a database URL to read; `None` otherwise.
    pub fn try_validate(
        self,
        context: &StartDomainConfigSchemaState,
        constraint: &StartDomainConfigSchemaConstraint,
        checks: &FieldChecks,
    ) -> (r: Option<Result<Self, ValidationError>>)
        ensures
            r is Some <==> (!none_or_empty(self.PROCESS_CHECKPOINT_FILE_DIRECTORY.deep_view())
                ==> self.DB_URL is Some),
            r matches Some(res) ==> ({
                let v = spec_violations(self, *checks);
                match res {
                    Ok(x) => v.len() == 0 && x == self,
                    Err(e) => v.len() > 0 && e@ == ValidationErrorView { message: None, violations: v },
                }
            }),
    {
        let reads_db_url = !self.PROCESS_CHECKPOINT_FILE_DIRECTORY.is_none_or_empty();
        if !reads_db_url || self.DB_URL.is_some() {
            Some(self.validate(context, constraint, checks))
        } else {
            None
        }
    }
}

/// The domain settings, parsed once: empty until the first parse, then
/// that parse's outcome for good.
pub struct DomainConfigCell {
    pub value: Option<Result<DomainConfigSchema, ValidationError>>,
}

impl DomainConfigCell {
    /// A cell that holds nothing yet.
    pub fn new() -> (c: Self)
        ensures
            c.value is None,
    {
        DomainConfigCell { value: None }
    }
}

/// The domain settings held in `cell`, parsing `start_schema` with `parsed`
/// on the first call. Once the cell holds an outcome, later calls leave it
/// as it is, whatever they pass. A first call whose numeric settings are not
/// supported (see `parse_reachable_supported`) leaves the cell empty and answers
/// `false`.
pub fn domain_config_schema(
    cell: &mut DomainConfigCell,
    start_schema: StartDomainConfigSchema,
    parsed: ParsedFields,
) -> (done: bool)
    ensures
        old(cell).value is Some ==> done && *final(cell) == *old(cell),
        old(cell).value is None ==> done == parse_reachable_supported(start_schema, parsed),
        old(cell).value is None && !done ==> *final(cell) == *old(cell),
        old(cell).value is None && done ==> (final(cell).value matches Some(res) && parse_agrees(
            res,
            spec_parse(start_schema, parsed),
        )),
{
    if cell.value.is_some() {
        return true;
    }
    match start_schema.try_parse(parsed) {
        Some(res) => {
            cell.value = Some(res);
            true
        },
        None => false,
    }
}

} // verus!
