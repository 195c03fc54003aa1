use cu::client::ao_process::{
    cache_entry_weight, create_find_process_query, create_save_process_query, drained_entry,
    drains_to_file, find_process_result, is_process_owner_supported, latest_checkpoint_before,
    load_process_cache_usage, usage_of_entries,
    pluck_tag_value, processes_to_load, AoProcessCacheExpiry, CacheEntry, Destination,
    Expiration, ProcessQuerySchema,
};
use cu::errors::CuErrors;
use cu::model::model::{BlockSchema, EvaluationSchema, ProcessSchema, RawTagSchema};
use std::time::Duration;

const NOW: i64 = 1702677252111;

fn process() -> ProcessSchema {
    ProcessSchema {
        id: "process-123".to_string(),
        owner: "woohoo".to_string(),
        signature: Some("sig-123".to_string()),
        anchor: None,
        data: "data-123".to_string(),
        tags: vec![RawTagSchema { name: "foo".to_string(), value: "bar".to_string() }],
        block: BlockSchema { height: 123, timestamp: NOW },
    }
}

fn row(id: &str, owner: &str) -> ProcessQuerySchema {
    ProcessQuerySchema {
        id: id.to_string(),
        signature: Some("sig-123".to_string()),
        data: "data-123".to_string(),
        anchor: None,
        owner: owner.to_string(),
        tags: "[{\"name\":\"foo\",\"value\":\"bar\"}]".to_string(),
        block: format!("{{\"height\":123,\"timestamp\":{}}}", NOW),
    }
}

fn evaluation(timestamp: i64, cron: Option<&str>) -> EvaluationSchema {
    EvaluationSchema {
        process_id: "process-123".to_string(),
        message_id: None,
        deep_hash: None,
        timestamp,
        epoch: None,
        nonce: None,
        ordinate: "1".to_string(),
        block_height: 1,
        cron: cron.map(|c| c.to_string()),
        evaluated_at: 0,
        output: "{}".to_string(),
    }
}

fn entry(memory: Option<Vec<u8>>, file: Option<Vec<u8>>) -> CacheEntry {
    CacheEntry { evaluation: evaluation(1, None), memory, file, expiration: Expiration::OneSecond }
}

#[test]
fn test_find_the_process() {
    let query = create_find_process_query("process-123");
    assert_eq!(query.parameters, vec!["process-123".to_string()]);
    let tags = vec![RawTagSchema { name: "foo".to_string(), value: "bar".to_string() }];
    let block = BlockSchema { height: 123, timestamp: NOW };
    match find_process_result(Some((row("process-123", "woohoo"), tags, block))) {
        Ok(res) => {
            assert!(res.id == "process-123");
            assert!(res.owner == "woohoo");
            assert!(res.tags[0].name == "foo");
            assert!(res.tags[0].value == "bar");
            assert!(res.signature == Some("sig-123".to_string()));
            assert!(res.anchor == None);
            assert!(res.data == "data-123".to_string());
            assert!(res.block.height == 123);
            assert!(res.block.timestamp == NOW);
        },
        Err(e) => panic!("{}", e.message()),
    }
}

#[test]
fn test_return_404_if_not_found() {
    match find_process_result(None) {
        Ok(_) => panic!("Should not return value"),
        Err(CuErrors::HttpStatus(e)) => {
            assert!(e.status == 404);
            assert_eq!(e.message, "Process not found");
        },
        Err(_) => panic!("Wrong error provided"),
    }
}

#[test]
fn process_without_owner_fails_validation() {
    let block = BlockSchema { height: 123, timestamp: NOW };
    match find_process_result(Some((row("process-123", ""), vec![], block))) {
        Err(CuErrors::SchemaValidation(e)) => {
            assert_eq!(e.message, "ProcessSchema validation failed")
        },
        _ => panic!("Wrong error provided"),
    }
}

#[test]
fn test_save_the_process() {
    let tags_json = "[{\"name\":\"foo\",\"value\":\"bar\"}]".to_string();
    let block_json = format!("{{\"height\":123,\"timestamp\":{}}}", NOW);
    let query = create_save_process_query(&process(), tags_json.clone(), block_json.clone());
    let (id, signature, data, anchor, owner, tags, block) = query.parameters;
    assert!(id == "process-123");
    assert!(signature == "sig-123");
    assert!(data == "data-123");
    assert!(anchor == "");
    assert!(owner == "woohoo");
    assert!(tags == tags_json);
    assert!(block == block_json);
}

#[test]
fn test_noop_if_the_process_already_exists() {
    let query = create_save_process_query(&process(), "[]".to_string(), "{}".to_string());
    assert!(query.sql.trim().starts_with("INSERT OR IGNORE"));
}

#[test]
fn expirations_from_ttl() {
    assert_eq!(Expiration::get_expiration_from_ms(999), Expiration::Never);
    assert_eq!(Expiration::get_expiration_from_ms(1000), Expiration::OneSecond);
    assert_eq!(Expiration::get_expiration_from_ms(2000), Expiration::FiveSeconds);
    assert_eq!(Expiration::get_expiration_from_ms(5999), Expiration::FiveSeconds);
    assert_eq!(Expiration::get_expiration_from_ms(6000), Expiration::TenSeconds);
    assert_eq!(Expiration::get_expiration_from_ms(10999), Expiration::TenSeconds);
}

#[test]
fn expiration_durations() {
    assert_eq!(Expiration::Never.as_duration(), None);
    assert_eq!(Expiration::OneSecond.as_duration(), Some(Duration::from_secs(1)));
    assert_eq!(Expiration::FiveSeconds.as_duration(), Some(Duration::from_secs(5)));
    assert_eq!(Expiration::TenSeconds.as_duration(), Some(Duration::from_secs(10)));
    let e = entry(Some(vec![1]), None);
    assert_eq!(
        AoProcessCacheExpiry.expire_after_create(&"k".to_string(), &e),
        Some(Duration::from_secs(1))
    );
}

#[test]
fn entries_weigh_their_memory_or_file() {
    assert_eq!(cache_entry_weight(&entry(Some(vec![0; 7]), Some(vec![0; 3]))), 7);
    assert_eq!(cache_entry_weight(&entry(None, Some(vec![0; 3]))), 3);
    let usage = processes_to_load(
        2,
        10,
        &vec![
            ("a".to_string(), entry(Some(vec![0; 7]), None)),
            ("b".to_string(), entry(None, Some(vec![0; 3]))),
        ],
    );
    assert_eq!(usage.size, 2);
    assert_eq!(usage.calculated_size, 10);
    assert_eq!(usage.processes[0].process, "a");
    assert_eq!(usage.processes[0].size, 7);
    assert_eq!(usage.processes[1].process, "b");
    assert_eq!(usage.processes[1].size, 3);
}

#[test]
fn draining_moves_memory_to_a_file() {
    let e = entry(Some(vec![1, 2]), None);
    assert!(drains_to_file(&e, 30000));
    assert!(!drains_to_file(&e, 0));
    assert!(!drains_to_file(&entry(None, Some(vec![1])), 30000));
    let d = drained_entry(&e, vec![9, 9, 9], 5000);
    assert_eq!(d.memory, None);
    assert_eq!(d.file, Some(vec![9, 9, 9]));
    assert_eq!(d.expiration, Expiration::FiveSeconds);
    assert_eq!(d.evaluation.timestamp, e.evaluation.timestamp);
}

#[test]
fn owners_allowed() {
    assert!(is_process_owner_supported(vec![], "x".to_string()));
    assert!(is_process_owner_supported(vec!["a".to_string(), "x".to_string()], "x".to_string()));
    assert!(!is_process_owner_supported(vec!["a".to_string()], "x".to_string()));
}

#[test]
fn plucks_the_first_tag_with_the_name() {
    let tags = vec![
        RawTagSchema { name: "a".to_string(), value: "1".to_string() },
        RawTagSchema { name: "b".to_string(), value: "2".to_string() },
        RawTagSchema { name: "b".to_string(), value: "3".to_string() },
    ];
    assert_eq!(pluck_tag_value("b".to_string(), tags.clone()), Some("2".to_string()));
    assert_eq!(pluck_tag_value("c".to_string(), tags), None);
}

#[test]
fn latest_destination_keeps_the_later_checkpoint() {
    let dest = Destination::IsString("LATEST".to_string());
    let cur = Some(evaluation(10, None));
    let r = latest_checkpoint_before(&dest, &cur, &evaluation(5, None));
    assert_eq!(r.timestamp, 10);
    let r = latest_checkpoint_before(&dest, &cur, &evaluation(20, None));
    assert_eq!(r.timestamp, 20);
    let r = latest_checkpoint_before(&dest, &None, &evaluation(5, None));
    assert_eq!(r.timestamp, 5);
    let r = latest_checkpoint_before(&dest, &cur, &evaluation(10, Some("c")));
    assert_eq!(r.cron, Some("c".to_string()));
}

#[test]
fn evaluation_destination_skips_checkpoints_past_it() {
    let dest = Destination::IsEvaluation(evaluation(100, None));
    let cur = Some(evaluation(50, None));
    assert_eq!(latest_checkpoint_before(&dest, &cur, &evaluation(150, None)).timestamp, 50);
    assert_eq!(latest_checkpoint_before(&dest, &cur, &evaluation(100, None)).timestamp, 50);
    assert_eq!(latest_checkpoint_before(&dest, &cur, &evaluation(40, None)).timestamp, 50);
    assert_eq!(latest_checkpoint_before(&dest, &cur, &evaluation(60, None)).timestamp, 60);
    let other = Destination::IsString("other".to_string());
    assert_eq!(latest_checkpoint_before(&other, &cur, &evaluation(40, None)).timestamp, 40);
}

#[test]
fn cache_usage_lists_each_process() {
    let cache: moka::future::Cache<String, CacheEntry> = moka::future::Cache::new(100);
    futures::executor::block_on(async {
        cache.insert("a".to_string(), entry(Some(vec![0; 7]), None)).await;
        cache.insert("b".to_string(), entry(None, Some(vec![0; 3]))).await;
        cache.run_pending_tasks().await;
    });
    let usage = load_process_cache_usage(&cache).unwrap();
    assert_eq!(usage.size, 2);
    let mut sizes: Vec<(String, u64)> = usage.processes.iter().map(|p| (p.process.clone(), p.size)).collect();
    sizes.sort();
    assert_eq!(sizes, vec![("a".to_string(), 7), ("b".to_string(), 3)]);
    futures::executor::block_on(cache.insert("c".to_string(), entry(None, None)));
    assert!(load_process_cache_usage(&cache).is_none());
}

#[test]
fn usage_of_entries_reports_or_refuses() {
    let entries = vec![
        ("a".to_string(), entry(Some(vec![0; 7]), None)),
        ("b".to_string(), entry(None, Some(vec![0; 3]))),
    ];
    let usage = usage_of_entries(2, 10, &entries).unwrap();
    assert_eq!((usage.size, usage.calculated_size), (2, 10));
    assert_eq!(usage.processes[1].process, "b");
    assert_eq!(usage.processes[1].size, 3);
    let bad = vec![("c".to_string(), entry(None, None))];
    assert!(usage_of_entries(1, 0, &bad).is_none());
}

#[test]
fn saved_process_reads_back_from_its_parameters() {
    let p = process();
    let tags_json = "[{\"name\":\"foo\",\"value\":\"bar\"}]".to_string();
    let block_json = format!("{{\"height\":123,\"timestamp\":{}}}", NOW);
    let q = create_save_process_query(&p, tags_json, block_json);
    let (id, signature, data, anchor, owner, tags, block) = q.parameters;
    let opt = |t: String| if t.is_empty() { None } else { Some(t) };
    let row = ProcessQuerySchema { id, signature: opt(signature), data, anchor: opt(anchor), owner, tags, block };
    let read_tags = vec![RawTagSchema { name: "foo".to_string(), value: "bar".to_string() }];
    let found = find_process_result(Some((row, read_tags, BlockSchema { height: 123, timestamp: NOW }))).ok().unwrap();
    assert_eq!(found.id, "process-123");
    assert_eq!(found.owner, "woohoo");
    assert_eq!(found.signature, Some("sig-123".to_string()));
    assert_eq!(found.anchor, None);
    assert_eq!(found.data, "data-123");
    assert_eq!(found.tags[0].name, "foo");
    assert_eq!(found.block.timestamp, NOW);
}
