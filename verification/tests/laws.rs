use cu::client::sqlite::{database_path, needs_wal_checkpoint, schema_statements, wal_checkpoint_settings};
use cu::method::Method;
use cu::model::model::Sort;
use cu::schema_utils::{is_earlier_than, is_equal_to, is_later_then, PartialEvaluationSchema};

fn at(timestamp: i64, cron: Option<&str>) -> PartialEvaluationSchema {
    PartialEvaluationSchema { timestamp, cron: cron.map(|c| c.to_string()) }
}

#[test]
fn later_timestamps_come_later() {
    assert!(is_later_then(at(1, None), at(2, None)));
    assert!(!is_later_then(at(2, None), at(1, None)));
    assert!(is_earlier_than(at(2, None), at(1, None)));
}

#[test]
fn cron_evaluations_follow_scheduled_ones_at_the_same_time() {
    assert!(is_later_then(at(5, None), at(5, Some("1-minute"))));
    assert!(!is_later_then(at(5, Some("1-minute")), at(5, None)));
    assert!(is_later_then(at(5, Some("a")), at(5, Some("b"))));
    assert!(!is_later_then(at(5, Some("b")), at(5, Some("a"))));
    assert!(!is_later_then(at(5, Some("")), at(5, None)));
}

#[test]
fn nothing_comes_after_itself() {
    for e in [at(1, None), at(1, Some("x"))] {
        let e2 = PartialEvaluationSchema { timestamp: e.timestamp, cron: e.cron.clone() };
        assert!(!is_later_then(e, e2));
    }
}

#[test]
fn earlier_is_later_reversed() {
    let pairs = [(1, None, 2, None), (3, Some("a"), 3, None), (3, Some("a"), 3, Some("b"))];
    for (t1, c1, t2, c2) in pairs {
        assert_eq!(is_earlier_than(at(t1, c1), at(t2, c2)), is_later_then(at(t2, c2), at(t1, c1)));
    }
}

#[test]
fn order_is_transitive_on_examples() {
    let (a, b, c) = ((1, None), (1, Some("a")), (1, Some("b")));
    assert!(is_later_then(at(a.0, a.1), at(b.0, b.1)));
    assert!(is_later_then(at(b.0, b.1), at(c.0, c.1)));
    assert!(is_later_then(at(a.0, a.1), at(c.0, c.1)));
}

#[test]
fn equality_of_places() {
    assert!(is_equal_to(at(1, Some("a")), at(1, Some("a"))));
    assert!(!is_equal_to(at(1, Some("a")), at(1, None)));
    assert!(!is_equal_to(at(1, None), at(2, None)));
}

#[test]
fn method_codes() {
    let all = [
        Method::Help,
        Method::Balance,
        Method::Withdraw,
        Method::Upload,
        Method::UploadDir,
        Method::Fund,
        Method::Price,
    ];
    for (i, m) in all.iter().enumerate() {
        assert_eq!(m.code() as usize, i);
    }
}

#[test]
fn sort_keywords() {
    assert_eq!(Sort::Asc.keyword(), "ASC");
    assert_eq!(Sort::Desc.keyword(), "DESC");
}

#[test]
fn test_base_tables_created() {
    let statements = schema_statements();
    assert_eq!(statements.len(), 7);
    for (i, table) in ["processes", "blocks", "modules", "evaluations", "messages"].iter().enumerate() {
        assert!(statements[i].contains(&format!("CREATE TABLE IF NOT EXISTS {} (", table)));
    }
    assert!(statements[5].contains("CREATE INDEX IF NOT EXISTS idx_blocks_height_timestamp"));
    assert!(statements[6].contains("CREATE INDEX IF NOT EXISTS idx_messages_id_processId_seq"));
}

#[test]
fn wal_checkpoints() {
    assert_eq!(wal_checkpoint_settings(None, None), (false, 100));
    assert_eq!(wal_checkpoint_settings(Some(true), Some(5)), (true, 5));
    assert!(needs_wal_checkpoint(101, 100));
    assert!(!needs_wal_checkpoint(100, 100));
}

#[test]
fn database_paths() {
    assert_eq!(database_path("sqlite://cu.db"), "cu.db");
    assert_eq!(database_path("data/cu.db"), "data/cu.db");
    assert_eq!(database_path("sqlite://a/sqlite://b"), "a/b");
}

#[test]
fn max_char_closes_a_prefix_range() {
    let prefix = "process-123,";
    let upper = format!("{}{}", prefix, cu::client::sqlite::COLLATION_SEQUENCE_MAX_CHAR);
    for rest in ["0", "1702677252111,1,", "zzz", "\u{10FFFE}"] {
        assert!(format!("{}{}", prefix, rest) < upper);
    }
}
