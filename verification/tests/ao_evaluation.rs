use cu::client::ao_evaluation::{
    create_evaluation_id, create_find_evaluation_query, create_find_evaluations_query,
    create_find_message_before_query, create_message_id, create_save_evaluation_queries,
    evaluation_lookup_result, find_evaluations_query, from_evaluation_docs, message_before_result,
    EvaluationQuerySchema, MessageDocParamsSchema,
};
use cu::client::ao_evaluation::from_evaluation_doc;
use cu::client::sqlite::{COLLATION_SEQUENCE_MAX_CHAR_AS_I64, EVALUATIONS_TABLE, MESSAGES_TABLE};
use cu::errors::CuErrors;
use cu::model::model::{EvaluationSchemaExtended, FromOrToEvaluationSchema, MessageBeforeSchema, Sort};

const EVALUATED_AT: i64 = 1702677252999;
const OUTPUT: &str = "{\"Messages\":[{\"foo\":\"bar\"}]}";

fn extended(is_assignment: bool, deep_hash: Option<&str>, output: &str) -> EvaluationSchemaExtended {
    EvaluationSchemaExtended {
        is_assignment,
        deep_hash: deep_hash.map(|d| d.to_string()),
        timestamp: 1702677252111,
        nonce: Some(1),
        epoch: Some(0),
        ordinate: "1".to_string(),
        block_height: 1234,
        cron: None,
        process_id: "process-123".to_string(),
        message_id: Some("message-123".to_string()),
        output: output.to_string(),
        evaluated_at: EVALUATED_AT,
    }
}

fn row(ordinate: &str) -> EvaluationQuerySchema {
    EvaluationQuerySchema {
        id: format!("process-123,1702677252111,{},", ordinate),
        process_id: "process-123".to_string(),
        message_id: Some("message-123".to_string()),
        deep_hash: Some("deepHash-123".to_string()),
        timestamp: 1702677252111,
        epoch: Some(0),
        nonce: Some(1),
        ordinate: ordinate.to_string(),
        block_height: 1234,
        cron: None,
        evaluated_at: EVALUATED_AT,
        output: OUTPUT.to_string(),
    }
}

fn check_first_query(parameters: &Vec<String>, deep_hash: &str) {
    assert!(parameters[0].as_str() == "process-123,1702677252111,1,");
    assert!(parameters[1].as_str() == "process-123");
    assert!(parameters[2].as_str() == "message-123");
    assert!(parameters[3].as_str() == deep_hash);
    assert!(parameters[4].as_str() == "1");
    assert!(parameters[5].as_str() == "0");
    assert!(parameters[6].as_str() == "1702677252111");
    assert!(parameters[7].as_str() == "1");
    assert!(parameters[8].as_str() == "1234");
    assert!(parameters[9].as_str() == "");
    assert!(parameters[10] == EVALUATED_AT.to_string());
    assert!(parameters[11] == OUTPUT);
}

#[test]
fn test_find_the_evaluation() {
    let query = create_find_evaluation_query("process-123", 1702677252111, "1", None);
    assert!(query.parameters[0] == "process-123,1702677252111,1,");
    match evaluation_lookup_result(Some(row("1"))) {
        Ok(Some(res)) => {
            assert!(res.process_id == "process-123".to_string());
            assert!(res.message_id == Some("message-123".to_string()));
            assert!(res.deep_hash == Some("deepHash-123".to_string()));
            assert!(res.nonce == Some(1));
            assert!(res.epoch == Some(0));
            assert!(res.timestamp == 1702677252111);
            assert!(res.ordinate == "1".to_string());
            assert!(res.block_height == 1234);
            assert!(res.cron == None);
            assert!(res.evaluated_at == EVALUATED_AT);
            assert!(res.output == OUTPUT);
        },
        _ => panic!("evaluation not returned"),
    }
}

#[test]
fn ao_evaluation_test_return_404_status_if_not_found() {
    let _ = create_find_evaluation_query("process-123", 1702677252111, "1", None);
    match evaluation_lookup_result(None) {
        Ok(Some(_)) => panic!("find_evaluation should not succeed"),
        Ok(None) => (),
        Err(e) => match e {
            CuErrors::HttpStatus(e) => assert!(e.status == 404),
            _ => panic!("find_evaluation invalid error"),
        },
    }
}

#[test]
fn test_use_deep_hash_as_the_message_doc_id() {
    match create_save_evaluation_queries(extended(false, Some("deepHash-123"), OUTPUT)) {
        Ok(statements) => {
            check_first_query(&statements[0].parameters, "deepHash-123");
            let second_query = &statements[1];
            assert!(second_query.parameters[0].as_str() == "deepHash-123");
            assert!(second_query.parameters[1].as_str() == "process-123");
            assert!(second_query.parameters[2].as_str() == "0:1");
        },
        Err(e) => panic!("{}", e.message()),
    }
}

#[test]
fn test_use_message_id_as_the_message_doc_id_if_assignment() {
    match create_save_evaluation_queries(extended(true, Some("deepHash-123"), OUTPUT)) {
        Ok(statements) => {
            check_first_query(&statements[0].parameters, "deepHash-123");
            let second_query = &statements[1];
            assert!(second_query.parameters[0].as_str() == "message-123");
            assert!(second_query.parameters[1].as_str() == "process-123");
            assert!(second_query.parameters[2].as_str() == "0:1");
        },
        Err(e) => panic!("{}", e.message()),
    }
}

#[test]
fn test_use_message_id_as_the_message_doc_id_if_no_deep_hash() {
    match create_save_evaluation_queries(extended(false, None, OUTPUT)) {
        Ok(statements) => {
            check_first_query(&statements[0].parameters, "");
            let second_query = &statements[1];
            assert!(second_query.parameters[0].as_str() == "message-123");
            assert!(second_query.parameters[1].as_str() == "process-123");
            assert!(second_query.parameters[2].as_str() == "0:1");
        },
        Err(e) => panic!("{}", e.message()),
    }
}

#[test]
fn test_noop_insert_evaluation_or_message_if_it_already_exists() {
    let output = "{\"Messages\":[{\"foo\":\"bar\"}],\"Memory\":\"foo\"}";
    match create_save_evaluation_queries(extended(false, Some("deepHash-123"), output)) {
        Ok(statements) => {
            let first_query = &statements[0];
            assert!(first_query
                .sql
                .trim()
                .starts_with(format!("INSERT OR IGNORE INTO {}", EVALUATIONS_TABLE).as_str()));
            let second_query = &statements[1];
            assert!(second_query
                .sql
                .trim()
                .starts_with(format!("INSERT OR IGNORE INTO {}", MESSAGES_TABLE).as_str()));
        },
        Err(e) => panic!("{}", e.message()),
    }
}

#[test]
fn cron_evaluation_stores_no_message() {
    let mut e = extended(false, None, OUTPUT);
    e.cron = Some("1-10-minutes".to_string());
    e.message_id = None;
    let statements = create_save_evaluation_queries(e).ok().unwrap();
    assert_eq!(statements.len(), 1);
    assert_eq!(statements[0].parameters[0], "process-123,1702677252111,1,1-10-minutes");
    assert_eq!(statements[0].parameters[2], "");
    assert_eq!(statements[0].parameters[9], "1-10-minutes");
}

#[test]
fn assignment_without_message_id_is_refused() {
    let mut e = extended(true, Some("deepHash-123"), OUTPUT);
    e.message_id = None;
    match create_save_evaluation_queries(e) {
        Err(CuErrors::SchemaValidation(v)) => {
            assert_eq!(v.message, "message_id must have a value if is_assignment is true!")
        },
        _ => panic!("expected a schema error"),
    }
}

#[test]
fn empty_process_id_fails_the_message_record() {
    let mut e = extended(false, Some("deepHash-123"), OUTPUT);
    e.process_id = "".to_string();
    match create_save_evaluation_queries(e) {
        Err(CuErrors::SchemaValidation(v)) => {
            assert!(v.message.starts_with("process_id: Validation error: length ["));
            assert!(v.message.contains("\"min\": Number(1)"));
            assert!(v.message.contains("\"value\": String(\"\")"));
        },
        _ => panic!("expected a schema error"),
    }
}

#[test]
fn message_doc_validation_reports_each_empty_field() {
    let params = MessageDocParamsSchema {
        id: "".to_string(),
        process_id: "p".to_string(),
        epoch_nonce: "".to_string(),
    };
    let report = params.validate().err().unwrap();
    let mut lines: Vec<&str> = report.lines().map(|l| l.split(':').next().unwrap()).collect();
    lines.sort();
    assert_eq!(lines, vec!["epoch_nonce", "id"]);
    assert!(report.lines().all(|l| l.contains("Validation error: length")));
    let ok = MessageDocParamsSchema {
        id: "m".to_string(),
        process_id: "p".to_string(),
        epoch_nonce: ":".to_string(),
    };
    assert!(ok.validate().is_ok());
}

#[test]
fn test_return_the_list_of_all_cron_evaluations() {
    let query = find_evaluations_query("process-123", None, None, Some(Sort::Asc), 10, Some(true));
    assert!(query.sql.contains("AND cron IS NOT NULL"));
    assert!(query.sql.contains("timestamp ASC"));
    assert!(query.sql.contains("ordinate ASC"));
    assert!(query.sql.contains("cron ASC"));
    assert!(query.parameters[0] == "process-123,");
    assert!(query.parameters[1] == format!("process-123,{},", COLLATION_SEQUENCE_MAX_CHAR_AS_I64));
    assert!(query.parameters[2] == "10");
    let docs = vec![row("1"), row("1")];
    assert!(from_evaluation_docs(&docs).len() == 2);
}

#[test]
fn test_return_the_evaluations_between_from_and_to() {
    let query = find_evaluations_query(
        "process-123",
        Some(FromOrToEvaluationSchema {
            timestamp: Some(1702677252111),
            ordinate: Some("3".to_string()),
            cron: None,
        }),
        Some(FromOrToEvaluationSchema { timestamp: Some(1702677252111), ordinate: None, cron: None }),
        Some(Sort::Asc),
        10,
        None,
    );
    assert!(query.sql.contains("AND cron IS NOT NULL") != true);
    assert!(query.parameters[0] == "process-123,1702677252111,3,");
    assert!(
        query.parameters[1]
            == format!("process-123,1702677252111,{},", COLLATION_SEQUENCE_MAX_CHAR_AS_I64)
    );
    assert!(query.parameters[2] == "10");
    let docs = vec![row("3"), row("3")];
    assert!(from_evaluation_docs(&docs).len() == 2);
}

#[test]
fn descending_listing_orders_every_key_descending() {
    let query = create_find_evaluations_query("p", None, None, false, Sort::Desc, 5);
    assert!(query.sql.contains("timestamp DESC"));
    assert!(query.sql.contains("ordinate DESC"));
    assert!(query.sql.contains("cron DESC"));
    assert!(!query.sql.contains("ASC"));
    assert_eq!(query.parameters[2], "5");
}

#[test]
fn test_find_prior_message_by_deep_hash() {
    let query = create_find_message_before_query(
        "message-123".to_string(),
        Some("deepHash-123".to_string()),
        false,
        "process-123".to_string(),
        3,
        0,
    );
    assert!(query.parameters[0] == "deepHash-123");
    assert!(query.parameters[1] == "process-123");
    assert!(query.parameters[2] == "0:3");
    let res = message_before_result(Some(MessageBeforeSchema {
        id: "deepHash-123".to_string(),
        seq: "0:2".to_string(),
    }));
    match res {
        Ok(res) => assert!(res.id == "deepHash-123"),
        Err(e) => panic!("{}", e.message()),
    }
}

#[test]
fn test_if_no_deep_hash_was_calculated() {
    let query = create_find_message_before_query(
        "message-123".to_string(),
        None,
        false,
        "process-123".to_string(),
        3,
        0,
    );
    assert!(query.parameters[0] == "message-123");
    assert!(query.parameters[1] == "process-123");
    assert!(query.parameters[2] == "0:3");
}

#[test]
fn test_if_it_is_an_assignment() {
    let query = create_find_message_before_query(
        "message-123".to_string(),
        None,
        true,
        "process-123".to_string(),
        3,
        0,
    );
    assert!(query.parameters[0] == "message-123");
    assert!(query.parameters[1] == "process-123");
    assert!(query.parameters[2] == "0:3");
}

#[test]
fn message_before_not_found_is_404() {
    match message_before_result(None) {
        Ok(_) => panic!("Should not return message"),
        Err(CuErrors::HttpStatus(e)) => {
            assert!(e.status == 404);
            assert_eq!(e.message, "Message not found");
        },
        Err(_) => panic!("Returned unexpected error"),
    }
}

#[test]
fn evaluation_ids_join_the_present_parts() {
    assert_eq!(create_evaluation_id("p".to_string(), None, None, None), "p,");
    assert_eq!(
        create_evaluation_id("p".to_string(), Some(-5), Some("2".to_string()), Some("c".to_string())),
        "p,-5,2,c"
    );
    assert_eq!(create_evaluation_id("p".to_string(), None, None, Some("c".to_string())), "p,c");
}

#[test]
fn message_ids() {
    assert_eq!(
        create_message_id(Some("m".to_string()), Some("d".to_string()), false).ok().unwrap(),
        "d"
    );
    assert_eq!(
        create_message_id(Some("m".to_string()), Some("d".to_string()), true).ok().unwrap(),
        "m"
    );
    assert_eq!(create_message_id(Some("m".to_string()), None, false).ok().unwrap(), "m");
    assert!(create_message_id(None, Some("d".to_string()), true).is_err());
}

#[test]
fn lower_bound_sorts_before_every_id_of_the_process() {
    let lower = create_evaluation_id("process-123".to_string(), None, None, None);
    let id = create_evaluation_id(
        "process-123".to_string(),
        Some(1),
        Some("0".to_string()),
        Some("!".to_string()),
    );
    assert!(lower <= id);
}

#[test]
fn stored_records_are_found_by_their_lookups() {
    let e = extended(false, Some("deepHash-123"), OUTPUT);
    let statements = create_save_evaluation_queries(e).ok().unwrap();
    let find = create_find_evaluation_query("process-123", 1702677252111, "1", None);
    assert_eq!(statements[0].parameters[0], find.parameters[0]);
    let before = create_find_message_before_query(
        "message-123".to_string(),
        Some("deepHash-123".to_string()),
        false,
        "process-123".to_string(),
        1,
        0,
    );
    assert_eq!(statements[1].parameters[0], before.parameters[0]);
}

#[test]
fn saved_evaluation_reads_back_from_its_parameters() {
    let e = extended(false, Some("deepHash-123"), OUTPUT);
    let statements = create_save_evaluation_queries(e).ok().unwrap();
    let p = &statements[0].parameters;
    let opt = |t: &String| if t.is_empty() { None } else { Some(t.clone()) };
    let num = |t: &String| if t.is_empty() { None } else { Some(t.parse::<i64>().unwrap()) };
    let row = EvaluationQuerySchema {
        id: p[0].clone(),
        process_id: p[1].clone(),
        message_id: opt(&p[2]),
        deep_hash: opt(&p[3]),
        nonce: num(&p[4]),
        epoch: num(&p[5]),
        timestamp: p[6].parse().unwrap(),
        ordinate: p[7].clone(),
        block_height: p[8].parse().unwrap(),
        cron: opt(&p[9]),
        evaluated_at: p[10].parse().unwrap(),
        output: p[11].clone(),
    };
    let r = from_evaluation_doc(&row);
    assert_eq!(r.process_id, "process-123");
    assert_eq!(r.message_id, Some("message-123".to_string()));
    assert_eq!(r.deep_hash, Some("deepHash-123".to_string()));
    assert_eq!(r.nonce, Some(1));
    assert_eq!(r.epoch, Some(0));
    assert_eq!(r.timestamp, 1702677252111);
    assert_eq!(r.ordinate, "1");
    assert_eq!(r.block_height, 1234);
    assert_eq!(r.cron, None);
    assert_eq!(r.evaluated_at, EVALUATED_AT);
    assert_eq!(r.output, OUTPUT);
}
