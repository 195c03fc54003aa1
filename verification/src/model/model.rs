//! The records the compute unit reads, stores and evaluates.
use vstd::prelude::*;
use crate::third_party::has_min_length;

verus! {

/// Order of a listing.
pub enum Sort {
    Asc,
    Desc,
}

impl Sort {
    pub open spec fn spec_keyword(&self) -> Seq<char> {
        match self {
            Sort::Asc => "ASC"@,
            Sort::Desc => "DESC"@,
        }
    }

    /// The SQL keyword of the order: `ASC` or `DESC`.
    pub fn keyword(&self) -> (s: &'static str)
        ensures
            s@ == self.spec_keyword(),
    {
        match self {
            Sort::Asc => "ASC",
            Sort::Desc => "DESC",
        }
    }
}

/// The id of a stored entity.
pub struct EntityId {
    pub id: String,
}

/// A name and value tag of a transaction.
pub struct RawTagSchema {
    pub name: String,
    pub value: String,
}

impl Clone for RawTagSchema {
    fn clone(&self) -> (r: Self)
        ensures
            r == *self,
    {
        RawTagSchema { name: self.name.clone(), value: self.value.clone() }
    }
}

/// Clones a list of tags.
pub fn clone_tags(tags: &Vec<RawTagSchema>) -> (r: Vec<RawTagSchema>)
    ensures
        r@ == tags@,
{
    let r = tags.clone();
    assert(r@ =~= tags@);
    r
}

#[allow(unused)]
pub struct Owner {
    pub address: String,
    pub key: String,
}

/// A wasm module: its id, tags and owner. Id and owner have at least one
/// character.
pub struct ModuleSchema {
    pub id: String,
    pub tags: Vec<RawTagSchema>,
    pub owner: String,
}

impl ModuleSchema {
    /// Whether id and owner each have at least one character.
    pub fn validate(&self) -> (b: bool)
        ensures
            b == (self.id@.len() >= 1 && self.owner@.len() >= 1),
    {
        has_min_length(self.id.as_str(), 1) && has_min_length(self.owner.as_str(), 1)
    }
}

impl Clone for ModuleSchema {
    fn clone(&self) -> (r: Self)
        ensures
            r.id == self.id,
            r.tags@ == self.tags@,
            r.owner == self.owner,
    {
        ModuleSchema { id: self.id.clone(), tags: clone_tags(&self.tags), owner: self.owner.clone() }
    }
}

/// A block: its height and timestamp.
#[derive(Clone, Copy)]
pub struct BlockSchema {
    pub height: i64,
    pub timestamp: i64,
}

pub type TimestampSchema = BlockSchema;

#[allow(unused)]
pub struct MessageMetaSchema {
    height: i64,
    timestamp: i64,
    nonce: i64,
}

/// A stored message id and its `epoch:nonce` sequence.
pub struct MessageBeforeSchema {
    pub id: String,
    pub seq: String,
}

/// A process: id and owner have at least one character.
pub struct ProcessSchema {
    pub id: String,
    pub signature: Option<String>,
    pub data: String,
    pub anchor: Option<String>,
    pub owner: String,
    pub tags: Vec<RawTagSchema>,
    pub block: BlockSchema,
}

impl ProcessSchema {
    /// Whether id and owner each have at least one character.
    pub fn validate(&self) -> (b: bool)
        ensures
            b == (self.id@.len() >= 1 && self.owner@.len() >= 1),
    {
        has_min_length(self.id.as_str(), 1) && has_min_length(self.owner.as_str(), 1)
    }
}

impl Clone for ProcessSchema {
    fn clone(&self) -> (r: Self)
        ensures
            r.id == self.id,
            r.signature == self.signature,
            r.data == self.data,
            r.anchor == self.anchor,
            r.owner == self.owner,
            r.tags@ == self.tags@,
            r.block == self.block,
    {
        ProcessSchema {
            id: self.id.clone(),
            signature: self.signature.clone(),
            data: self.data.clone(),
            anchor: self.anchor.clone(),
            owner: self.owner.clone(),
            tags: clone_tags(&self.tags),
            block: self.block,
        }
    }
}

#[allow(unused)]
pub struct ProcessSchemaWithoutId {
    signature: Option<String>,
    data: Option<Vec<u8>>,
    anchor: Option<String>,
    owner: String,
    tags: Vec<RawTagSchema>,
    block: BlockSchema,
}

#[allow(unused)]
pub struct Output {
    memory: Option<String>,
    messages: Option<Vec<u8>>,
    assignments: Option<Vec<u8>>,
    spawns: Option<Vec<u8>>,
    output: Option<Vec<u8>>,
    gas_used: Option<i64>,
    error: Option<Vec<u8>>,
}

/// The result of evaluating a message (or a cron tick) on a process.
/// `evaluated_at` is the time of evaluation in milliseconds since the Unix
/// epoch; `output` is the output as JSON text.
pub struct EvaluationSchema {
    /// The process the message was evaluated on.
    pub process_id: String,
    /// Cron messages have no message id.
    pub message_id: Option<String>,
    /// Only forwarded messages have a deep hash.
    pub deep_hash: Option<String>,
    pub timestamp: i64,
    /// Cron messages have no epoch.
    pub epoch: Option<i64>,
    /// Cron messages have no nonce.
    pub nonce: Option<i64>,
    /// Orders the evaluation stream: a scheduled message's nonce, or for a
    /// cron message the nonce of the latest scheduled message.
    pub ordinate: String,
    pub block_height: i64,
    /// Scheduled messages have no cron.
    pub cron: Option<String>,
    pub evaluated_at: i64,
    pub output: String,
}

impl Clone for EvaluationSchema {
    fn clone(&self) -> (r: Self)
        ensures
            r == *self,
    {
        EvaluationSchema {
            process_id: self.process_id.clone(),
            message_id: self.message_id.clone(),
            deep_hash: self.deep_hash.clone(),
            timestamp: self.timestamp,
            epoch: self.epoch,
            nonce: self.nonce,
            ordinate: self.ordinate.clone(),
            block_height: self.block_height,
            cron: self.cron.clone(),
            evaluated_at: self.evaluated_at,
            output: self.output.clone(),
        }
    }
}

/// An evaluation together with whether its message is an assignment.
pub struct EvaluationSchemaExtended {
    pub process_id: String,
    pub message_id: Option<String>,
    pub deep_hash: Option<String>,
    pub timestamp: i64,
    pub epoch: Option<i64>,
    pub nonce: Option<i64>,
    pub ordinate: String,
    pub block_height: i64,
    pub cron: Option<String>,
    pub evaluated_at: i64,
    pub output: String,
    pub is_assignment: bool,
}

/// A bound of an evaluation listing.
pub struct FromOrToEvaluationSchema {
    pub timestamp: Option<i64>,
    pub ordinate: Option<String>,
    pub cron: Option<String>,
}

pub trait StreamSchema {
    fn pipe(&self);
}

#[allow(unused)]
pub struct ProcessUrl {
    url: String,
}

/// A message as handed to the evaluator.
pub struct Message {
    pub id: String,
    pub timestamp: i64,
    pub owner: String,
    pub tags: Vec<RawTagSchema>,
    pub block_height: i64,
}

/// A process as handed to the evaluator.
pub struct Process {
    pub id: String,
    pub tags: Vec<RawTagSchema>,
}

/// The global state handed to the evaluator.
pub struct AoGlobal {
    pub process: Process,
}

/// The limits and encodings a module runs with.
pub struct ModuleOptions {
    pub format: String,
    pub input_encoding: String,
    pub output_encoding: String,
    pub memory_limit: i64,
    pub compute_limit: i64,
    pub extensions: Vec<String>,
}

/// The arguments of one evaluation.
pub struct EvaluateArgs {
    pub name: String,
    pub no_save: bool,
    pub deep_hash: Option<String>,
    pub cron: Option<String>,
    pub ordinate: String,
    pub is_assignment: bool,
    pub process_id: String,
    pub memory: Option<i64>,
    pub message: Message,
    pub ao_global: AoGlobal,
    pub stream_id: [u8; 8],
    pub module_id: String,
    pub module_options: Option<ModuleOptions>,
}

} // verus!
