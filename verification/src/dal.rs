//! The interfaces through which the domain loads transactions, processes,
//! timestamps and message metadata from outside services.
use vstd::prelude::*;
use crate::model::model::{
    MessageMetaSchema, ModuleSchema, ProcessSchemaWithoutId, ProcessUrl, TimestampSchema,
};

verus! {

/// Loads the metadata of a module's transaction.
pub trait LoadTransactionMetaSchema {
    fn load_transaction_meta_schema(module_id: Option<String>) -> ModuleSchema;
}

/// Loads the data of a transaction.
pub trait LoadTransactionDataSchema {
    fn load_transaction_data(tx_id: String) -> Vec<u8>;
}

/// Loads a process from its scheduler unit.
pub trait LoadProcessSchema {
    fn load_process_schema(su_url: String, process_id: String) -> ProcessSchemaWithoutId;
}

/// Loads the latest timestamp of a process from its scheduler unit.
pub trait LoadTimestampSchema {
    fn load_timestamp_schema(su_url: String, process_id: String) -> TimestampSchema;
}

/// Loads the metadata of a message from its scheduler unit.
pub trait LoadMessageMetaSchema {
    fn load_message_meta_schema(
        su_url: String,
        process_id: String,
        message_tx_id: String,
    ) -> MessageMetaSchema;
}

/// Finds the scheduler unit that hosts a process.
pub trait LocateProcessSchema {
    fn locate_process_schema(process_id: String, scheduler_hint: Option<String>) -> ProcessUrl;
}

} // verus!
