//! The environment the compute unit starts from, and the preprocessing that
//! fills in defaults before the schemas parse it.
use vstd::prelude::*;

verus! {

/// The raw settings read from the environment, each one optional text.
#[allow(non_snake_case)]
pub struct StartConfigEnv {
    pub GATEWAY_URL: Option<String>,
    pub MODE: Option<String>,
    pub port: Option<String>,
    pub DUMP_PATH: Option<String>,
    pub WALLET_FILE: Option<String>,
    pub PROCESS_WASM_MEMORY_MAX_LIMIT: Option<String>,
    pub PROCESS_WASM_COMPUTE_MAX_LIMIT: Option<String>,
    pub GRAPHQL_URL: Option<String>,
    pub CHECKPOINT_GRAPHQL_URL: Option<String>,
    pub ARWEAVE_URL: Option<String>,
    pub UPLOADER_URL: Option<String>,
    pub DB_URL: Option<String>,
    pub WALLET: Option<String>,
    pub MEM_MONITOR_INTERVAL: Option<String>,
    pub PROCESS_CHECKPOINT_CREATION_THROTTLE: Option<String>,
    pub DISABLE_PROCESS_CHECKPOINT_CREATION: Option<String>,
    pub EAGER_CHECKPOINT_THRESHOLD: Option<String>,
    pub WASM_EVALUATION_MAX_WORKERS: Option<String>,
    pub WASM_INSTANCE_CACHE_MAX_SIZE: Option<String>,
    pub WASM_MODULE_CACHE_MAX_SIZE: Option<String>,
    pub WASM_BINARY_FILE_DIRECTORY: Option<String>,
    pub PROCESS_IGNORE_ARWEAVE_CHECKPOINTS: Option<String>,
    pub PROCESS_CHECKPOINT_FILE_DIRECTORY: Option<String>,
    pub PROCESS_MEMORY_CACHE_MAX_SIZE: Option<String>,
    pub PROCESS_MEMORY_CACHE_TTL: Option<String>,
    pub PROCESS_MEMORY_CACHE_CHECKPOINT_INTERVAL: Option<String>,
    pub BUSY_THRESHOLD: Option<String>,
    pub RESTRICT_PROCESSES: Option<String>,
    pub ALLOW_PROCESSES: Option<String>,
}

/// The settings as optional character sequences.
#[allow(non_snake_case)]
pub struct StartConfigEnvView {
    pub GATEWAY_URL: Option<Seq<char>>,
    pub MODE: Option<Seq<char>>,
    pub port: Option<Seq<char>>,
    pub DUMP_PATH: Option<Seq<char>>,
    pub WALLET_FILE: Option<Seq<char>>,
    pub PROCESS_WASM_MEMORY_MAX_LIMIT: Option<Seq<char>>,
    pub PROCESS_WASM_COMPUTE_MAX_LIMIT: Option<Seq<char>>,
    pub GRAPHQL_URL: Option<Seq<char>>,
    pub CHECKPOINT_GRAPHQL_URL: Option<Seq<char>>,
    pub ARWEAVE_URL: Option<Seq<char>>,
    pub UPLOADER_URL: Option<Seq<char>>,
    pub DB_URL: Option<Seq<char>>,
    pub WALLET: Option<Seq<char>>,
    pub MEM_MONITOR_INTERVAL: Option<Seq<char>>,
    pub PROCESS_CHECKPOINT_CREATION_THROTTLE: Option<Seq<char>>,
    pub DISABLE_PROCESS_CHECKPOINT_CREATION: Option<Seq<char>>,
    pub EAGER_CHECKPOINT_THRESHOLD: Option<Seq<char>>,
    pub WASM_EVALUATION_MAX_WORKERS: Option<Seq<char>>,
    pub WASM_INSTANCE_CACHE_MAX_SIZE: Option<Seq<char>>,
    pub WASM_MODULE_CACHE_MAX_SIZE: Option<Seq<char>>,
    pub WASM_BINARY_FILE_DIRECTORY: Option<Seq<char>>,
    pub PROCESS_IGNORE_ARWEAVE_CHECKPOINTS: Option<Seq<char>>,
    pub PROCESS_CHECKPOINT_FILE_DIRECTORY: Option<Seq<char>>,
    pub PROCESS_MEMORY_CACHE_MAX_SIZE: Option<Seq<char>>,
    pub PROCESS_MEMORY_CACHE_TTL: Option<Seq<char>>,
    pub PROCESS_MEMORY_CACHE_CHECKPOINT_INTERVAL: Option<Seq<char>>,
    pub BUSY_THRESHOLD: Option<Seq<char>>,
    pub RESTRICT_PROCESSES: Option<Seq<char>>,
    pub ALLOW_PROCESSES: Option<Seq<char>>,
}

impl View for StartConfigEnv {
    type V = StartConfigEnvView;

    open spec fn view(&self) -> StartConfigEnvView {
        StartConfigEnvView {
            GATEWAY_URL: self.GATEWAY_URL.deep_view(),
            MODE: self.MODE.deep_view(),
            port: self.port.deep_view(),
            DUMP_PATH: self.DUMP_PATH.deep_view(),
            WALLET_FILE: self.WALLET_FILE.deep_view(),
            PROCESS_WASM_MEMORY_MAX_LIMIT: self.PROCESS_WASM_MEMORY_MAX_LIMIT.deep_view(),
            PROCESS_WASM_COMPUTE_MAX_LIMIT: self.PROCESS_WASM_COMPUTE_MAX_LIMIT.deep_view(),
            GRAPHQL_URL: self.GRAPHQL_URL.deep_view(),
            CHECKPOINT_GRAPHQL_URL: self.CHECKPOINT_GRAPHQL_URL.deep_view(),
            ARWEAVE_URL: self.ARWEAVE_URL.deep_view(),
            UPLOADER_URL: self.UPLOADER_URL.deep_view(),
            DB_URL: self.DB_URL.deep_view(),
            WALLET: self.WALLET.deep_view(),
            MEM_MONITOR_INTERVAL: self.MEM_MONITOR_INTERVAL.deep_view(),
            PROCESS_CHECKPOINT_CREATION_THROTTLE: self.PROCESS_CHECKPOINT_CREATION_THROTTLE.deep_view(),
            DISABLE_PROCESS_CHECKPOINT_CREATION: self.DISABLE_PROCESS_CHECKPOINT_CREATION.deep_view(),
            EAGER_CHECKPOINT_THRESHOLD: self.EAGER_CHECKPOINT_THRESHOLD.deep_view(),
            WASM_EVALUATION_MAX_WORKERS: self.WASM_EVALUATION_MAX_WORKERS.deep_view(),
            WASM_INSTANCE_CACHE_MAX_SIZE: self.WASM_INSTANCE_CACHE_MAX_SIZE.deep_view(),
            WASM_MODULE_CACHE_MAX_SIZE: self.WASM_MODULE_CACHE_MAX_SIZE.deep_view(),
            WASM_BINARY_FILE_DIRECTORY: self.WASM_BINARY_FILE_DIRECTORY.deep_view(),
            PROCESS_IGNORE_ARWEAVE_CHECKPOINTS: self.PROCESS_IGNORE_ARWEAVE_CHECKPOINTS.deep_view(),
            PROCESS_CHECKPOINT_FILE_DIRECTORY: self.PROCESS_CHECKPOINT_FILE_DIRECTORY.deep_view(),
            PROCESS_MEMORY_CACHE_MAX_SIZE: self.PROCESS_MEMORY_CACHE_MAX_SIZE.deep_view(),
            PROCESS_MEMORY_CACHE_TTL: self.PROCESS_MEMORY_CACHE_TTL.deep_view(),
            PROCESS_MEMORY_CACHE_CHECKPOINT_INTERVAL: self.PROCESS_MEMORY_CACHE_CHECKPOINT_INTERVAL.deep_view(),
            BUSY_THRESHOLD: self.BUSY_THRESHOLD.deep_view(),
            RESTRICT_PROCESSES: self.RESTRICT_PROCESSES.deep_view(),
            ALLOW_PROCESSES: self.ALLOW_PROCESSES.deep_view(),
        }
    }
}

} // verus!
