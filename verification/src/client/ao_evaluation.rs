//! Evaluation and message records: their ids, and the SQL statements with
//! parameters that store and find them.
use vstd::prelude::*;
use crate::client::sqlite::{COLLATION_SEQUENCE_MAX_CHAR_AS_I64, EVALUATIONS_TABLE, MESSAGES_TABLE};
use crate::errors::{http_error, schema_error, CuErrors};
use crate::model::model::{
    EntityId, EvaluationSchema, EvaluationSchemaExtended, FromOrToEvaluationSchema,
    MessageBeforeSchema, Sort,
};
use crate::strings::{get_empty_string, get_number_string, number_or_empty, or_empty};
use crate::text::{
    concat3, i64_to_string, int_decimal, lemma_extension_not_below, lemma_int_decimal_reads_back,
    push_char, seq_lt, spec_parse_i64,
};
use crate::third_party::{
    add_length_error, has_min_length, new_validation_errors, validation_errors_text,
};

verus! {

/// An SQL statement and its positional parameters.
pub struct Query {
    pub sql: String,
    pub parameters: Vec<String>,
}

pub struct QueryView {
    pub sql: Seq<char>,
    pub parameters: Seq<Seq<char>>,
}

impl View for Query {
    type V = QueryView;

    open spec fn view(&self) -> QueryView {
        QueryView { sql: self.sql@, parameters: self.parameters.deep_view() }
    }
}

/// An evaluation as stored: its id is `process_id,timestamp,ordinate,cron`.
pub struct EvaluationDocSchema {
    pub id: String,
    pub process_id: String,
    pub message_id: Option<String>,
    pub deep_hash: Option<String>,
    pub timestamp: i64,
    pub epoch: Option<i64>,
    pub nonce: Option<i64>,
    pub ordinate: String,
    pub block_height: i64,
    pub cron: Option<String>,
    pub evaluated_at: i64,
    pub output: String,
}

/// A message record: its unique id, its process, and `epoch:nonce`. Each
/// field must have at least one character.
pub struct MessageDocParamsSchema {
    pub id: String,
    pub process_id: String,
    pub epoch_nonce: String,
}

/// An evaluation row as read from the store; `evaluated_at` is in
/// milliseconds and `output` is JSON text.
pub struct EvaluationQuerySchema {
    pub id: String,
    pub process_id: String,
    pub message_id: Option<String>,
    pub deep_hash: Option<String>,
    pub timestamp: i64,
    pub epoch: Option<i64>,
    pub nonce: Option<i64>,
    pub ordinate: String,
    pub block_height: i64,
    pub cron: Option<String>,
    pub evaluated_at: i64,
    pub output: String,
}

pub const MESSAGE_ID_REQUIRED: &'static str = "message_id must have a value if is_assignment is true!";

pub const EVALUATION_NOT_FOUND: &'static str = "Evaluation result not found";

pub const MESSAGE_NOT_FOUND: &'static str = "Message not found";

pub const FIND_EVALUATION_HEAD: &'static str = "\n            SELECT\n              id, processId, messageId, deepHash, nonce, epoch, timestamp,\n              ordinate, blockHeight, cron, evaluatedAt, output\n            FROM ";

pub const FIND_EVALUATION_TAIL: &'static str = "\n            WHERE\n              id = ?;\n          ";

pub const SAVE_EVALUATION_HEAD: &'static str = "\n                    INSERT OR IGNORE INTO ";

pub const SAVE_EVALUATION_TAIL: &'static str = "\n                    (id, processId, messageId, deepHash, nonce, epoch, timestamp, ordinate, blockHeight, cron, evaluatedAt, output)\n                    VALUES (?, ?, ?, ?, ?, ?, ?, ?, ?, ?, ?, ?);\n                ";

pub const SAVE_MESSAGE_HEAD: &'static str = "INSERT OR IGNORE INTO ";

pub const SAVE_MESSAGE_TAIL: &'static str = " (id, processId, seq) VALUES (?, ?, ?);";

pub const FIND_EVALUATIONS_HEAD: &'static str = "\n            SELECT\n              id, processId, messageId, deepHash, nonce, epoch, timestamp,\n              ordinate, blockHeight, cron, evaluatedAt, output\n            FROM ";

pub const FIND_EVALUATIONS_RANGE: &'static str = "\n            WHERE\n              id >= ? AND id <= ?\n              ";

pub const ONLY_CRON_FILTER: &'static str = "AND cron IS NOT NULL";

pub const ORDER_BY_TIMESTAMP: &'static str = "\n            ORDER BY\n              timestamp ";

pub const ORDER_BY_ORDINATE: &'static str = ",\n              ordinate ";

pub const ORDER_BY_CRON: &'static str = ",\n              cron ";

pub const FIND_EVALUATIONS_LIMIT: &'static str = "\n            LIMIT ?;\n          ";

pub const FIND_MESSAGE_BEFORE_HEAD: &'static str = "\n            SELECT\n              id, seq\n            FROM ";

pub const FIND_MESSAGE_BEFORE_TAIL: &'static str = "\n            WHERE\n              id = ?\n              AND processId = ?\n              AND seq < ?\n            LIMIT 1;\n          ";

/// The id of an evaluation: the process id, then the timestamp, ordinate and
/// cron where present, each of the first three followed by a comma.
pub open spec fn evaluation_id(
    process_id: Seq<char>,
    timestamp: Option<i64>,
    ordinate: Option<Seq<char>>,
    cron: Option<Seq<char>>,
) -> Seq<char> {
    process_id + seq![','] + match timestamp {
        Some(t) => int_decimal(t as int) + seq![','],
        None => Seq::empty(),
    } + match ordinate {
        Some(o) => o + seq![','],
        None => Seq::empty(),
    } + match cron {
        Some(c) => c,
        None => Seq::empty(),
    }
}

/// The id of an evaluation (see `evaluation_id`).
pub fn create_evaluation_id(
    process_id: String,
    timestamp: Option<i64>,
    ordinate: Option<String>,
    cron: Option<String>,
) -> (s: String)
    ensures
        s@ == evaluation_id(process_id@, timestamp, ordinate.deep_view(), cron.deep_view()),
{
    let mut s = process_id;
    push_char(&mut s, ',');
    let ghost after_process = s@;
    if let Some(t) = timestamp {
        let d = i64_to_string(t);
        s.append(d.as_str());
        push_char(&mut s, ',');
    }
    let ghost after_timestamp = s@;
    if let Some(o) = &ordinate {
        s.append(o.as_str());
        push_char(&mut s, ',');
    }
    let ghost after_ordinate = s@;
    if let Some(c) = &cron {
        s.append(c.as_str());
    }
    assert(s@ =~= evaluation_id(process_id@, timestamp, ordinate.deep_view(), cron.deep_view()));
    s
}

/// Whether a message's unique id can be chosen: assignments and messages
/// with a deep hash always qualify, others need a message id.
pub open spec fn message_id_defined(
    message_id: Option<Seq<char>>,
    deep_hash: Option<Seq<char>>,
    is_assignment: bool,
) -> bool {
    is_assignment || deep_hash is Some || message_id is Some
}

/// The unique id of a message: an assignment's message id; otherwise the
/// deep hash that the unit computed for a pushed message; otherwise the
/// message id of an end-user message. An assignment without a message id is
/// an error, with this message.
pub open spec fn message_id_result(
    message_id: Option<Seq<char>>,
    deep_hash: Option<Seq<char>>,
    is_assignment: bool,
) -> Result<Seq<char>, Seq<char>> {
    if is_assignment {
        match message_id {
            Some(m) => Ok(m),
            None => Err(MESSAGE_ID_REQUIRED@),
        }
    } else {
        match deep_hash {
            Some(d) => Ok(d),
            None => Ok(message_id.unwrap()),
        }
    }
}

/// The unique id of a message that has a message id: the deep hash of a
/// pushed message where there is one, otherwise the message id.
pub open spec fn unique_message_id(
    message_id: Seq<char>,
    deep_hash: Option<Seq<char>>,
    is_assignment: bool,
) -> Seq<char> {
    match (is_assignment, deep_hash) {
        (false, Some(d)) => d,
        _ => message_id,
    }
}

/// The unique id of a message (see `message_id_result`).
pub fn create_message_id(message_id: Option<String>, deep_hash: Option<String>, is_assignment: bool) -> (r:
    Result<String, CuErrors>)
    requires
        message_id_defined(message_id.deep_view(), deep_hash.deep_view(), is_assignment),
    ensures
        match (r, message_id_result(message_id.deep_view(), deep_hash.deep_view(), is_assignment)) {
            (Ok(s), Ok(t)) => s@ == t,
            (Err(e), Err(m)) => e matches CuErrors::SchemaValidation(v) && v.message@ == m,
            _ => false,
        },
{
    if is_assignment {
        return match message_id {
            Some(m) => Ok(m),
            None => Err(schema_error(MESSAGE_ID_REQUIRED)),
        };
    }
    match deep_hash {
        Some(d) => Ok(d),
        None => match message_id {
            Some(m) => Ok(m),
            None => Err(schema_error(MESSAGE_ID_REQUIRED)),
        },
    }
}

/// The query for the evaluation of a process at a timestamp, ordinate and
/// cron.
pub fn create_find_evaluation_query(
    process_id: &str,
    timestamp: i64,
    ordinate: &str,
    cron: Option<String>,
) -> (q: Query)
    ensures
        q@.sql == FIND_EVALUATION_HEAD@ + EVALUATIONS_TABLE@ + FIND_EVALUATION_TAIL@,
        q@.parameters == seq![
            evaluation_id(process_id@, Some(timestamp), Some(ordinate@), cron.deep_view()),
        ],
{
    let id = create_evaluation_id(
        process_id.to_owned(),
        Some(timestamp),
        Some(ordinate.to_owned()),
        cron,
    );
    let mut parameters = Vec::new();
    parameters.push(id);
    let q = Query {
        sql: concat3(FIND_EVALUATION_HEAD, EVALUATIONS_TABLE, FIND_EVALUATION_TAIL),
        parameters,
    };
    assert(q@.parameters =~= seq![
        evaluation_id(process_id@, Some(timestamp), Some(ordinate@), cron.deep_view()),
    ]);
    q
}

/// The evaluation that a stored row holds.
pub open spec fn evaluation_of_doc(d: EvaluationQuerySchema) -> EvaluationSchema {
    EvaluationSchema {
        process_id: d.process_id,
        message_id: d.message_id,
        deep_hash: d.deep_hash,
        timestamp: d.timestamp,
        epoch: d.epoch,
        nonce: d.nonce,
        ordinate: d.ordinate,
        block_height: d.block_height,
        cron: d.cron,
        evaluated_at: d.evaluated_at,
        output: d.output,
    }
}

/// The evaluation that a stored row holds.
pub fn from_evaluation_doc(doc: &EvaluationQuerySchema) -> (e: EvaluationSchema)
    ensures
        e == evaluation_of_doc(*doc),
{
    EvaluationSchema {
        process_id: doc.process_id.clone(),
        message_id: doc.message_id.clone(),
        deep_hash: doc.deep_hash.clone(),
        timestamp: doc.timestamp,
        epoch: doc.epoch,
        nonce: doc.nonce,
        ordinate: doc.ordinate.clone(),
        block_height: doc.block_height,
        cron: doc.cron.clone(),
        evaluated_at: doc.evaluated_at,
        output: doc.output.clone(),
    }
}

/// The stored form of an evaluation: its fields, with its evaluation id.
pub fn to_evaluation_doc(evaluation: &EvaluationSchemaExtended) -> (d: EvaluationDocSchema)
    ensures
        d.id@ == evaluation_id(
            evaluation.process_id@,
            Some(evaluation.timestamp),
            Some(evaluation.ordinate@),
            evaluation.cron.deep_view(),
        ),
        d.process_id == evaluation.process_id,
        d.message_id == evaluation.message_id,
        d.deep_hash == evaluation.deep_hash,
        d.timestamp == evaluation.timestamp,
        d.epoch == evaluation.epoch,
        d.nonce == evaluation.nonce,
        d.ordinate == evaluation.ordinate,
        d.block_height == evaluation.block_height,
        d.cron == evaluation.cron,
        d.evaluated_at == evaluation.evaluated_at,
        d.output == evaluation.output,
{
    EvaluationDocSchema {
        id: create_evaluation_id(
            evaluation.process_id.clone(),
            Some(evaluation.timestamp),
            Some(evaluation.ordinate.clone()),
            evaluation.cron.clone(),
        ),
        process_id: evaluation.process_id.clone(),
        message_id: evaluation.message_id.clone(),
        deep_hash: evaluation.deep_hash.clone(),
        timestamp: evaluation.timestamp,
        epoch: evaluation.epoch,
        nonce: evaluation.nonce,
        ordinate: evaluation.ordinate.clone(),
        block_height: evaluation.block_height,
        cron: evaluation.cron.clone(),
        evaluated_at: evaluation.evaluated_at,
        output: evaluation.output.clone(),
    }
}

/// The names of a message record's fields that are empty, in declaration
/// order.
pub open spec fn empty_message_doc_fields(
    id: Seq<char>,
    process_id: Seq<char>,
    epoch_nonce: Seq<char>,
) -> Seq<Seq<char>> {
    (if id.len() < 1 {
        seq!["id"@]
    } else {
        Seq::empty()
    }) + (if process_id.len() < 1 {
        seq!["process_id"@]
    } else {
        Seq::empty()
    }) + (if epoch_nonce.len() < 1 {
        seq!["epoch_nonce"@]
    } else {
        Seq::empty()
    })
}

impl MessageDocParamsSchema {
    pub open spec fn spec_empty_fields(&self) -> Seq<Seq<char>> {
        empty_message_doc_fields(self.id@, self.process_id@, self.epoch_nonce@)
    }

    /// `Ok` where every field has at least one character; otherwise the
    /// report that the `validator` crate gives of the fields that have
    /// none, each as a length error with the minimum and the value.
    pub fn validate(&self) -> (r: Result<(), String>)
        ensures
            r is Ok <==> self.spec_empty_fields().len() == 0,
    {
        let mut errors = new_validation_errors();
        let mut failed = false;
        if !has_min_length(self.id.as_str(), 1) {
            add_length_error(&mut errors, "id", 1, self.id.as_str());
            failed = true;
        }
        if !has_min_length(self.process_id.as_str(), 1) {
            add_length_error(&mut errors, "process_id", 1, self.process_id.as_str());
            failed = true;
        }
        if !has_min_length(self.epoch_nonce.as_str(), 1) {
            add_length_error(&mut errors, "epoch_nonce", 1, self.epoch_nonce.as_str());
            failed = true;
        }
        if failed {
            Err(validation_errors_text(&errors))
        } else {
            Ok(())
        }
    }
}

/// The `epoch:nonce` sequence of a message, absent parts written empty.
pub open spec fn epoch_nonce(epoch: Option<i64>, nonce: Option<i64>) -> Seq<char> {
    number_or_empty(epoch) + seq![':'] + number_or_empty(nonce)
}

/// The parameters of the statement that stores an evaluation.
pub open spec fn save_evaluation_parameters(e: EvaluationSchemaExtended) -> Seq<Seq<char>> {
    seq![
        evaluation_id(e.process_id@, Some(e.timestamp), Some(e.ordinate@), e.cron.deep_view()),
        e.process_id@,
        or_empty(e.message_id.deep_view()),
        or_empty(e.deep_hash.deep_view()),
        number_or_empty(e.nonce),
        number_or_empty(e.epoch),
        int_decimal(e.timestamp as int),
        e.ordinate@,
        int_decimal(e.block_height as int),
        or_empty(e.cron.deep_view()),
        int_decimal(e.evaluated_at as int),
        e.output@,
    ]
}

pub open spec fn save_evaluation_sql() -> Seq<char> {
    SAVE_EVALUATION_HEAD@ + EVALUATIONS_TABLE@ + SAVE_EVALUATION_TAIL@
}

pub open spec fn save_message_sql() -> Seq<char> {
    SAVE_MESSAGE_HEAD@ + MESSAGES_TABLE@ + SAVE_MESSAGE_TAIL@
}

/// The statements that store an evaluation, or the schema error that
/// prevents it: its message where this library words it, `None` where it is
/// the `validator` crate's report of empty fields. The evaluation is always
/// stored; a scheduled message (one without cron) is also recorded under its
/// unique id with its `epoch:nonce`, which requires that id and the process
/// id to be non-empty.
pub open spec fn save_evaluation_statements(e: EvaluationSchemaExtended) -> Result<
    Seq<QueryView>,
    Option<Seq<char>>,
> {
    let first = QueryView { sql: save_evaluation_sql(), parameters: save_evaluation_parameters(e) };
    if e.cron is Some {
        Ok(seq![first])
    } else {
        match message_id_result(e.message_id.deep_view(), e.deep_hash.deep_view(), e.is_assignment) {
            Err(m) => Err(Some(m)),
            Ok(id) => {
                let seq = epoch_nonce(e.epoch, e.nonce);
                let empty = empty_message_doc_fields(id, e.process_id@, seq);
                if empty.len() == 0 {
                    Ok(
                        seq![
                            first,
                            QueryView {
                                sql: save_message_sql(),
                                parameters: seq![id, e.process_id@, seq],
                            },
                        ],
                    )
                } else {
                    Err(None)
                }
            },
        }
    }
}

/// The statements that store `evaluation` (see `save_evaluation_statements`);
/// a failure is a schema error.
pub fn create_save_evaluation_queries(evaluation: EvaluationSchemaExtended) -> (r: Result<
    Vec<Query>,
    CuErrors,
>)
    requires
        evaluation.cron is None ==> message_id_defined(
            evaluation.message_id.deep_view(),
            evaluation.deep_hash.deep_view(),
            evaluation.is_assignment,
        ),
    ensures
        match (r, save_evaluation_statements(evaluation)) {
            (Ok(qs), Ok(vs)) => qs@.map_values(|q: Query| q@) == vs,
            (Err(e), Err(m)) => e matches CuErrors::SchemaValidation(v) && (m matches Some(t)
                ==> v.message@ == t),
            _ => false,
        },
{
    let doc = to_evaluation_doc(&evaluation);
    let mut parameters: Vec<String> = Vec::new();
    parameters.push(doc.id);
    parameters.push(doc.process_id);
    parameters.push(get_empty_string(doc.message_id));
    parameters.push(get_empty_string(doc.deep_hash));
    parameters.push(get_number_string(doc.nonce));
    parameters.push(get_number_string(doc.epoch));
    parameters.push(i64_to_string(doc.timestamp));
    parameters.push(doc.ordinate);
    parameters.push(i64_to_string(doc.block_height));
    parameters.push(get_empty_string(doc.cron));
    parameters.push(i64_to_string(doc.evaluated_at));
    parameters.push(doc.output);
    let first = Query {
        sql: concat3(SAVE_EVALUATION_HEAD, EVALUATIONS_TABLE, SAVE_EVALUATION_TAIL),
        parameters,
    };
    assert(first@.parameters =~= save_evaluation_parameters(evaluation));
    let mut statements: Vec<Query> = Vec::new();
    statements.push(first);
    if evaluation.cron.is_none() {
        let id = match create_message_id(
            evaluation.message_id,
            evaluation.deep_hash,
            evaluation.is_assignment,
        ) {
            Ok(id) => id,
            Err(e) => {
                return Err(e);
            },
        };
        let mut seq = get_number_string(evaluation.epoch);
        push_char(&mut seq, ':');
        let nonce = get_number_string(evaluation.nonce);
        seq.append(nonce.as_str());
        assert(seq@ =~= epoch_nonce(evaluation.epoch, evaluation.nonce));
        let params = MessageDocParamsSchema {
            id,
            process_id: evaluation.process_id,
            epoch_nonce: seq,
        };
        match params.validate() {
            Ok(_) => {
                let mut second_parameters: Vec<String> = Vec::new();
                second_parameters.push(params.id);
                second_parameters.push(params.process_id);
                second_parameters.push(params.epoch_nonce);
                let second = Query {
                    sql: concat3(SAVE_MESSAGE_HEAD, MESSAGES_TABLE, SAVE_MESSAGE_TAIL),
                    parameters: second_parameters,
                };
                statements.push(second);
                assert(second@.parameters =~= seq![params.id@, params.process_id@, params.epoch_nonce@]);
            },
            Err(m) => {
                return Err(CuErrors::SchemaValidation(crate::errors::SchemaValidationError { message: m }));
            },
        }
    }
    proof {
        let vs = save_evaluation_statements(evaluation);
        assert(statements@.map_values(|q: Query| q@) =~= vs->Ok_0);
    }
    Ok(statements)
}

/// An evaluation's fields, text as character sequences.
pub struct EvaluationFields {
    pub process_id: Seq<char>,
    pub message_id: Option<Seq<char>>,
    pub deep_hash: Option<Seq<char>>,
    pub timestamp: i64,
    pub epoch: Option<i64>,
    pub nonce: Option<i64>,
    pub ordinate: Seq<char>,
    pub block_height: i64,
    pub cron: Option<Seq<char>>,
    pub evaluated_at: i64,
    pub output: Seq<char>,
}

/// The fields of an evaluation.
pub open spec fn fields_of_evaluation(e: EvaluationSchema) -> EvaluationFields {
    EvaluationFields {
        process_id: e.process_id@,
        message_id: e.message_id.deep_view(),
        deep_hash: e.deep_hash.deep_view(),
        timestamp: e.timestamp,
        epoch: e.epoch,
        nonce: e.nonce,
        ordinate: e.ordinate@,
        block_height: e.block_height,
        cron: e.cron.deep_view(),
        evaluated_at: e.evaluated_at,
        output: e.output@,
    }
}

/// The fields of an evaluation that is saved.
pub open spec fn fields_saved(e: EvaluationSchemaExtended) -> EvaluationFields {
    EvaluationFields {
        process_id: e.process_id@,
        message_id: e.message_id.deep_view(),
        deep_hash: e.deep_hash.deep_view(),
        timestamp: e.timestamp,
        epoch: e.epoch,
        nonce: e.nonce,
        ordinate: e.ordinate@,
        block_height: e.block_height,
        cron: e.cron.deep_view(),
        evaluated_at: e.evaluated_at,
        output: e.output@,
    }
}

/// An optional text column read back from its stored text: empty text as
/// absent.
pub open spec fn optional_text_read(t: Seq<char>) -> Option<Seq<char>> {
    if t.len() == 0 {
        None
    } else {
        Some(t)
    }
}

/// An optional number column read back from its stored decimal text: empty
/// text as absent.
pub open spec fn optional_number_read(t: Seq<char>) -> Option<i64> {
    if t.len() == 0 {
        None
    } else {
        spec_parse_i64(t)
    }
}

/// Whether the evaluation row `d` holds what the insert parameters `p`
/// wrote: its id, and each column read back from its parameter's text
/// (numbers from decimal text, empty optional text as absent).
pub open spec fn row_holds_parameters(d: EvaluationQuerySchema, p: Seq<Seq<char>>) -> bool {
    &&& p.len() == 12
    &&& d.id@ == p[0]
    &&& d.process_id@ == p[1]
    &&& d.message_id.deep_view() == optional_text_read(p[2])
    &&& d.deep_hash.deep_view() == optional_text_read(p[3])
    &&& d.nonce == optional_number_read(p[4])
    &&& d.epoch == optional_number_read(p[5])
    &&& Some(d.timestamp) == spec_parse_i64(p[6])
    &&& d.ordinate@ == p[7]
    &&& Some(d.block_height) == spec_parse_i64(p[8])
    &&& d.cron.deep_view() == optional_text_read(p[9])
    &&& Some(d.evaluated_at) == spec_parse_i64(p[10])
    &&& d.output@ == p[11]
}

/// A saved evaluation reads back as it was saved: a row that holds what the
/// insert wrote, read back with `from_evaluation_doc`, has the saved fields
/// and the id the lookup searches for. Optional texts that are present but
/// empty are stored empty and read back as absent, so they are left out.
pub proof fn saved_evaluation_reads_back(e: EvaluationSchemaExtended, d: EvaluationQuerySchema)
    requires
        e.message_id.deep_view() != Some(Seq::<char>::empty()),
        e.deep_hash.deep_view() != Some(Seq::<char>::empty()),
        e.cron.deep_view() != Some(Seq::<char>::empty()),
        save_evaluation_statements(e) matches Ok(vs) && row_holds_parameters(d, vs[0].parameters),
    ensures
        fields_of_evaluation(evaluation_of_doc(d)) == fields_saved(e),
        d.id@ == evaluation_id(e.process_id@, Some(e.timestamp), Some(e.ordinate@), e.cron.deep_view()),
{
    let p = save_evaluation_statements(e)->Ok_0[0].parameters;
    assert(p == save_evaluation_parameters(e));
    lemma_int_decimal_reads_back(e.timestamp);
    lemma_int_decimal_reads_back(e.block_height);
    lemma_int_decimal_reads_back(e.evaluated_at);
    if let Some(n) = e.nonce {
        lemma_int_decimal_reads_back(n);
    }
    if let Some(n) = e.epoch {
        lemma_int_decimal_reads_back(n);
    }
    if let Some(m) = e.message_id.deep_view() {
        assert(m.len() > 0) by {
            if m.len() == 0 {
                assert(m =~= Seq::<char>::empty());
            }
        }
    }
    if let Some(h) = e.deep_hash.deep_view() {
        assert(h.len() > 0) by {
            if h.len() == 0 {
                assert(h =~= Seq::<char>::empty());
            }
        }
    }
    if let Some(c) = e.cron.deep_view() {
        assert(c.len() > 0) by {
            if c.len() == 0 {
                assert(c =~= Seq::<char>::empty());
            }
        }
    }
    assert(d.message_id.deep_view() == e.message_id.deep_view());
    assert(d.deep_hash.deep_view() == e.deep_hash.deep_view());
    assert(d.cron.deep_view() == e.cron.deep_view());
    assert(d.nonce == e.nonce);
    assert(d.epoch == e.epoch);
    assert(d.timestamp == e.timestamp);
    assert(d.block_height == e.block_height);
    assert(d.evaluated_at == e.evaluated_at);
}

/// A stored evaluation is stored under the id that the lookup of its
/// process, timestamp, ordinate and cron searches for.
pub proof fn saved_evaluation_is_found_at_its_place(e: EvaluationSchemaExtended)
    ensures
        save_evaluation_statements(e) matches Ok(vs) ==> vs[0].parameters[0] == evaluation_id(
            e.process_id@,
            Some(e.timestamp),
            Some(e.ordinate@),
            e.cron.deep_view(),
        ),
{
}

/// A scheduled message with a message id is recorded under the id that the
/// lookup of an earlier message searches for with the same message id, deep
/// hash and assignment flag.
pub proof fn recorded_message_is_found_by_its_id(e: EvaluationSchemaExtended)
    requires
        e.cron is None,
        e.message_id is Some,
    ensures
        save_evaluation_statements(e) matches Ok(vs) ==> vs.len() == 2 && vs[1].parameters[0]
            == unique_message_id(e.message_id->0@, e.deep_hash.deep_view(), e.is_assignment),
{
}

/// The id that bounds an evaluation listing: from the process id alone
/// where there is no bound, otherwise from the bound's fields.
pub open spec fn lower_bound_id(process_id: Seq<char>, from: Option<FromOrToEvaluationSchema>) -> Seq<
    char,
> {
    match from {
        None => evaluation_id(process_id, None, None, None),
        Some(f) => evaluation_id(process_id, f.timestamp, f.ordinate.deep_view(), f.cron.deep_view()),
    }
}

/// The id that bounds an evaluation listing from above: past every
/// timestamp where there is no bound, otherwise from the bound's fields
/// with a missing ordinate replaced by the collation maximum.
pub open spec fn upper_bound_id(process_id: Seq<char>, to: Option<FromOrToEvaluationSchema>) -> Seq<
    char,
> {
    match to {
        None => evaluation_id(process_id, Some(COLLATION_SEQUENCE_MAX_CHAR_AS_I64), None, None),
        Some(t) => evaluation_id(
            process_id,
            t.timestamp,
            Some(
                match t.ordinate.deep_view() {
                    Some(o) => o,
                    None => int_decimal(COLLATION_SEQUENCE_MAX_CHAR_AS_I64 as int),
                },
            ),
            t.cron.deep_view(),
        ),
    }
}

/// Every evaluation id of a process sorts at or after the lower bound of a
/// listing of that process without a `from` bound.
pub proof fn evaluation_ids_not_below_lower_bound(
    process_id: Seq<char>,
    timestamp: Option<i64>,
    ordinate: Option<Seq<char>>,
    cron: Option<Seq<char>>,
)
    ensures
        !seq_lt(
            evaluation_id(process_id, timestamp, ordinate, cron),
            lower_bound_id(process_id, None),
        ),
{
    let lower = lower_bound_id(process_id, None);
    let id = evaluation_id(process_id, timestamp, ordinate, cron);
    assert(lower =~= process_id + seq![',']);
    let rest = id.subrange(lower.len() as int, id.len() as int);
    assert(id =~= lower + rest);
    lemma_extension_not_below(lower, rest);
}

/// The bounds of a listing are the ids of the bound evaluations: a `from`
/// bound's id from its own fields, and a `to` bound's id from its own
/// fields, with only a missing ordinate replaced by the collation maximum.
/// So an evaluation at the `to` bound's timestamp with a larger ordinate
/// lies above the listing.
pub proof fn listing_bounds_are_bound_ids(
    process_id: Seq<char>,
    from: Option<FromOrToEvaluationSchema>,
    to: Option<FromOrToEvaluationSchema>,
)
    ensures
        from matches Some(f) ==> lower_bound_id(process_id, from) == evaluation_id(
            process_id,
            f.timestamp,
            f.ordinate.deep_view(),
            f.cron.deep_view(),
        ),
        from is None ==> lower_bound_id(process_id, from) == process_id + seq![','],
        to matches Some(t) ==> t.ordinate is Some ==> upper_bound_id(process_id, to)
            == evaluation_id(process_id, t.timestamp, t.ordinate.deep_view(), t.cron.deep_view()),
        to matches Some(t) ==> t.ordinate is None ==> upper_bound_id(process_id, to)
            == evaluation_id(
            process_id,
            t.timestamp,
            Some(int_decimal(COLLATION_SEQUENCE_MAX_CHAR_AS_I64 as int)),
            t.cron.deep_view(),
        ),
{
    if from is None {
        assert(lower_bound_id(process_id, from) =~= process_id + seq![',']);
    }
}

pub open spec fn find_evaluations_sql(only_cron: bool, sort: Seq<char>) -> Seq<char> {
    FIND_EVALUATIONS_HEAD@ + EVALUATIONS_TABLE@ + FIND_EVALUATIONS_RANGE@ + (if only_cron {
        ONLY_CRON_FILTER@
    } else {
        Seq::empty()
    }) + ORDER_BY_TIMESTAMP@ + sort + ORDER_BY_ORDINATE@ + sort + ORDER_BY_CRON@ + sort
        + FIND_EVALUATIONS_LIMIT@
}

fn bound_id(process_id: &str, bound: Option<FromOrToEvaluationSchema>, upper: bool) -> (s: String)
    ensures
        upper ==> s@ == upper_bound_id(process_id@, bound),
        !upper ==> s@ == lower_bound_id(process_id@, bound),
{
    match bound {
        None => {
            if upper {
                create_evaluation_id(
                    process_id.to_owned(),
                    Some(COLLATION_SEQUENCE_MAX_CHAR_AS_I64),
                    None,
                    None,
                )
            } else {
                create_evaluation_id(process_id.to_owned(), None, None, None)
            }
        },
        Some(b) => {
            let ordinate = if upper {
                match b.ordinate {
                    Some(o) => Some(o),
                    None => Some(i64_to_string(COLLATION_SEQUENCE_MAX_CHAR_AS_I64)),
                }
            } else {
                b.ordinate
            };
            create_evaluation_id(process_id.to_owned(), b.timestamp, ordinate, b.cron)
        },
    }
}

/// The query for the evaluations of a process between `from` (exclusive
/// by the id order) and `to` (inclusive), optionally only cron ones, in the
/// given order, at most `limit` of them.
pub fn create_find_evaluations_query(
    process_id: &str,
    from: Option<FromOrToEvaluationSchema>,
    to: Option<FromOrToEvaluationSchema>,
    only_cron: bool,
    sort: Sort,
    limit: i64,
) -> (q: Query)
    ensures
        q@.sql == find_evaluations_sql(only_cron, sort.spec_keyword()),
        q@.parameters == seq![
            lower_bound_id(process_id@, from),
            upper_bound_id(process_id@, to),
            int_decimal(limit as int),
        ],
{
    let keyword = sort.keyword();
    let mut sql = concat3(FIND_EVALUATIONS_HEAD, EVALUATIONS_TABLE, FIND_EVALUATIONS_RANGE);
    if only_cron {
        sql.append(ONLY_CRON_FILTER);
    }
    sql.append(ORDER_BY_TIMESTAMP);
    sql.append(keyword);
    sql.append(ORDER_BY_ORDINATE);
    sql.append(keyword);
    sql.append(ORDER_BY_CRON);
    sql.append(keyword);
    sql.append(FIND_EVALUATIONS_LIMIT);
    let mut parameters: Vec<String> = Vec::new();
    parameters.push(bound_id(process_id, from, false));
    parameters.push(bound_id(process_id, to, true));
    parameters.push(i64_to_string(limit));
    let q = Query { sql, parameters };
    assert(q@.sql =~= find_evaluations_sql(only_cron, sort.spec_keyword()));
    assert(q@.parameters =~= seq![
        lower_bound_id(process_id@, from),
        upper_bound_id(process_id@, to),
        int_decimal(limit as int),
    ]);
    q
}

/// The query for the evaluations of a process (see
/// `create_find_evaluations_query`), in ascending order where no order is
/// given, and not only cron ones unless asked.
pub fn find_evaluations_query(
    process_id: &str,
    from: Option<FromOrToEvaluationSchema>,
    to: Option<FromOrToEvaluationSchema>,
    sort: Option<Sort>,
    limit: i64,
    only_cron: Option<bool>,
) -> (q: Query)
    ensures
        q@.sql == find_evaluations_sql(
            only_cron == Some(true),
            match sort {
                Some(s) => s.spec_keyword(),
                None => Sort::Asc.spec_keyword(),
            },
        ),
        q@.parameters == seq![
            lower_bound_id(process_id@, from),
            upper_bound_id(process_id@, to),
            int_decimal(limit as int),
        ],
{
    let only_cron = match only_cron {
        Some(b) => b,
        None => false,
    };
    let sort = match sort {
        Some(s) => s,
        None => Sort::Asc,
    };
    create_find_evaluations_query(process_id, from, to, only_cron, sort, limit)
}

/// The query for a message of a process recorded before `epoch:nonce`,
/// under the message's unique id.
pub fn create_find_message_before_query(
    message_id: String,
    deep_hash: Option<String>,
    is_assignment: bool,
    process_id: String,
    nonce: i64,
    epoch: i64,
) -> (q: Query)
    ensures
        q@.sql == FIND_MESSAGE_BEFORE_HEAD@ + MESSAGES_TABLE@ + FIND_MESSAGE_BEFORE_TAIL@,
        q@.parameters == seq![
            unique_message_id(message_id@, deep_hash.deep_view(), is_assignment),
            process_id@,
            int_decimal(epoch as int) + seq![':'] + int_decimal(nonce as int),
        ],
{
    let id = match create_message_id(Some(message_id), deep_hash, is_assignment) {
        Ok(id) => id,
        Err(_) => String::new(),
    };
    let mut seq = i64_to_string(epoch);
    push_char(&mut seq, ':');
    let n = i64_to_string(nonce);
    seq.append(n.as_str());
    assert(seq@ =~= int_decimal(epoch as int) + seq![':'] + int_decimal(nonce as int));
    let mut parameters: Vec<String> = Vec::new();
    parameters.push(id);
    parameters.push(process_id);
    parameters.push(seq);
    let q = Query {
        sql: concat3(FIND_MESSAGE_BEFORE_HEAD, MESSAGES_TABLE, FIND_MESSAGE_BEFORE_TAIL),
        parameters,
    };
    assert(q@.parameters =~= seq![
        unique_message_id(message_id@, deep_hash.deep_view(), is_assignment),
        process_id@,
        int_decimal(epoch as int) + seq![':'] + int_decimal(nonce as int),
    ]);
    q
}

/// The answer to an evaluation lookup from the first matching row: the
/// evaluation it holds, or a 404 error where there is none.
pub fn evaluation_lookup_result(row: Option<EvaluationQuerySchema>) -> (r: Result<
    Option<EvaluationSchema>,
    CuErrors,
>)
    ensures
        match row {
            Some(d) => r == Ok::<Option<EvaluationSchema>, CuErrors>(Some(evaluation_of_doc(d))),
            None => r matches Err(CuErrors::HttpStatus(e)) && e.status == 404 && e.message@
                == EVALUATION_NOT_FOUND@,
        },
{
    match row {
        Some(d) => Ok(Some(from_evaluation_doc(&d))),
        None => Err(http_error(404, EVALUATION_NOT_FOUND)),
    }
}

/// The evaluations that the rows of a listing hold, in order.
pub fn from_evaluation_docs(rows: &Vec<EvaluationQuerySchema>) -> (r: Vec<EvaluationSchema>)
    ensures
        r@ == rows@.map_values(|d: EvaluationQuerySchema| evaluation_of_doc(d)),
{
    let mut r: Vec<EvaluationSchema> = Vec::new();
    let mut i: usize = 0;
    while i < rows.len()
        invariant
            i <= rows@.len(),
            r@ == rows@.take(i as int).map_values(|d: EvaluationQuerySchema| evaluation_of_doc(d)),
        decreases rows.len() - i,
    {
        r.push(from_evaluation_doc(&rows[i]));
        i = i + 1;
        assert(r@ =~= rows@.take(i as int).map_values(
            |d: EvaluationQuerySchema| evaluation_of_doc(d),
        ));
    }
    assert(rows@.take(rows@.len() as int) =~= rows@);
    r
}

/// The answer to a lookup of an earlier message: its id, or a 404 error
/// where no row matched.
pub fn message_before_result(row: Option<MessageBeforeSchema>) -> (r: Result<EntityId, CuErrors>)
    ensures
        match row {
            Some(m) => r matches Ok(e) && e.id == m.id,
            None => r matches Err(CuErrors::HttpStatus(e)) && e.status == 404 && e.message@
                == MESSAGE_NOT_FOUND@,
        },
{
    match row {
        Some(m) => Ok(EntityId { id: m.id }),
        None => Err(http_error(404, MESSAGE_NOT_FOUND)),
    }
}

} // verus!
