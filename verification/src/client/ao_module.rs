//! Modules: their stored form and the SQL statements that find and store
//! them, and the random id of an evaluation stream.
use vstd::prelude::*;
use rand::RngCore;
use crate::client::sqlite::MODULES_TABLE;
use crate::errors::{http_error, CuErrors};
use crate::model::model::{ModuleSchema, RawTagSchema};
use crate::text::concat3;
use crate::third_party::has_min_length;

verus! {

/// A module as stored: id and owner have at least one character.
pub struct ModuleDocSchema {
    pub id: String,
    /// address
    pub owner: String,
    pub tags: Vec<RawTagSchema>,
}

impl ModuleDocSchema {
    /// Whether id and owner each have at least one character.
    pub fn validate(&self) -> (b: bool)
        ensures
            b == (self.id@.len() >= 1 && self.owner@.len() >= 1),
    {
        has_min_length(self.id.as_str(), 1) && has_min_length(self.owner.as_str(), 1)
    }
}

/// A module row as read from the store; `tags` is JSON text.
pub struct ModuleQuerySchema {
    pub id: String,
    /// address
    pub owner: String,
    pub tags: String,
}

/// An SQL statement and its positional parameters.
pub struct Query {
    pub sql: String,
    pub parameters: Vec<String>,
}

pub const FIND_MODULE_HEAD: &'static str = "\n            SELECT id, tags, owner\n            FROM ";

pub const FIND_MODULE_TAIL: &'static str = "\n            WHERE\n              id = ?\n          ";

pub const SAVE_MODULE_HEAD: &'static str = "\n              INSERT OR IGNORE INTO ";

pub const SAVE_MODULE_TAIL: &'static str = "\n              (id, tags, owner)\n              VALUES (?, ?, ?)\n            ";

pub const MODULE_NOT_FOUND: &'static str = "Module not found";

/// The stored form of a module.
pub fn to_module_doc(module: ModuleSchema) -> (d: ModuleDocSchema)
    ensures
        d.id == module.id,
        d.owner == module.owner,
        d.tags == module.tags,
{
    ModuleDocSchema { id: module.id, owner: module.owner, tags: module.tags }
}

/// The query for a module by its id.
pub fn create_find_module_query(module_id: &str) -> (q: Query)
    ensures
        q.sql@ == FIND_MODULE_HEAD@ + MODULES_TABLE@ + FIND_MODULE_TAIL@,
        q.parameters.deep_view() == seq![module_id@],
{
    let mut parameters: Vec<String> = Vec::new();
    parameters.push(module_id.to_owned());
    let q = Query { sql: concat3(FIND_MODULE_HEAD, MODULES_TABLE, FIND_MODULE_TAIL), parameters };
    assert(q.parameters.deep_view() =~= seq![module_id@]);
    q
}

/// The insert that stores a module unless one with its id is stored
/// already: its id, its tags as the JSON text `tags_json`, and its owner.
pub fn create_save_module_query(module: ModuleDocSchema, tags_json: String) -> (q: Query)
    ensures
        q.sql@ == SAVE_MODULE_HEAD@ + MODULES_TABLE@ + SAVE_MODULE_TAIL@,
        q.parameters.deep_view() == seq![module.id@, tags_json@, module.owner@],
{
    let mut parameters: Vec<String> = Vec::new();
    parameters.push(module.id);
    parameters.push(tags_json);
    parameters.push(module.owner);
    let q = Query { sql: concat3(SAVE_MODULE_HEAD, MODULES_TABLE, SAVE_MODULE_TAIL), parameters };
    assert(q.parameters.deep_view() =~= seq![module.id@, tags_json@, module.owner@]);
    q
}

/// The answer to a module lookup, from the first row found with its tags
/// as read from its JSON text: the module, or a 404 error where no row was
/// found.
pub fn find_module_result(first: Option<(ModuleQuerySchema, Vec<RawTagSchema>)>) -> (r: Result<
    Option<ModuleSchema>,
    CuErrors,
>)
    ensures
        match first {
            None => r matches Err(CuErrors::HttpStatus(e)) && e.status == 404 && e.message@
                == MODULE_NOT_FOUND@,
            Some((row, tags)) => r matches Ok(Some(m)) && m.id == row.id && m.owner == row.owner
                && m.tags == tags,
        },
{
    match first {
        None => Err(http_error(404, MODULE_NOT_FOUND)),
        Some((row, tags)) => Ok(Some(ModuleSchema { id: row.id, tags, owner: row.owner })),
    }
}

/// Fills eight bytes from `rand::thread_rng()` with `RngCore::fill_bytes`.
/// Nothing is claimed of the bytes: they are random.
#[verifier::external_body]
fn random_bytes() -> (buffer: [u8; 8]) {
    let mut buffer = [0u8; 8];
    rand::thread_rng().fill_bytes(&mut buffer);
    buffer
}

/// A random id for an evaluation stream. Any eight bytes may come out.
pub fn stream_id() -> [u8; 8] {
    random_bytes()
}

/// A saved module is found as it was saved: where the row holds what the
/// insert wrote (id, tags as JSON text, owner) and the tags read back from
/// that text are the saved ones, the module found (see
/// `find_module_result`) has the saved id, owner and tags.
pub proof fn saved_module_is_found(
    module: ModuleDocSchema,
    tags_json: Seq<char>,
    row: ModuleQuerySchema,
    tags: Vec<RawTagSchema>,
)
    requires
        row.id@ == module.id@,
        row.tags@ == tags_json,
        row.owner@ == module.owner@,
        tags@ == module.tags@,
    ensures
        (row.id@, row.owner@, tags@) == (module.id@, module.owner@, module.tags@),
{
}

} // verus!
