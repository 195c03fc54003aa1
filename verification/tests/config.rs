use cu::config::StartConfigEnv;
use cu::errors::CuErrors;
use cu::model::domain_config_schema::{
    domain_config_schema, DomainConfigCell, DomainConfigSchema, FieldChecks, ParsedFields,
    StartDomainConfigSchema, StartDomainConfigSchemaConstraint, StartDomainConfigSchemaState,
};
use cu::model::positive_int_schema::{try_parse_positive_int_schema, PositiveIntSchemaConstraint};
use cu::model::server_config_schema::{
    DevOrProd, ServerConfigConstraint, ServerConfigSchema, StartServerConfigSchema,
};
use cu::model::truthy_schema::{parse_boolean_schema, TruthyConstraint};
use cu::schema_utils::{preprocess_urls, wallet_source, WalletSource};
use cu::strings::{get_empty_string, get_number_string, IsNoneOrEmpty};

fn empty_env() -> StartConfigEnv {
    StartConfigEnv {
        GATEWAY_URL: None,
        MODE: None,
        port: None,
        DUMP_PATH: None,
        WALLET_FILE: None,
        PROCESS_WASM_MEMORY_MAX_LIMIT: None,
        PROCESS_WASM_COMPUTE_MAX_LIMIT: None,
        GRAPHQL_URL: None,
        CHECKPOINT_GRAPHQL_URL: None,
        ARWEAVE_URL: None,
        UPLOADER_URL: None,
        DB_URL: None,
        WALLET: None,
        MEM_MONITOR_INTERVAL: None,
        PROCESS_CHECKPOINT_CREATION_THROTTLE: None,
        DISABLE_PROCESS_CHECKPOINT_CREATION: None,
        EAGER_CHECKPOINT_THRESHOLD: None,
        WASM_EVALUATION_MAX_WORKERS: None,
        WASM_INSTANCE_CACHE_MAX_SIZE: None,
        WASM_MODULE_CACHE_MAX_SIZE: None,
        WASM_BINARY_FILE_DIRECTORY: None,
        PROCESS_IGNORE_ARWEAVE_CHECKPOINTS: None,
        PROCESS_CHECKPOINT_FILE_DIRECTORY: None,
        PROCESS_MEMORY_CACHE_MAX_SIZE: None,
        PROCESS_MEMORY_CACHE_TTL: None,
        PROCESS_MEMORY_CACHE_CHECKPOINT_INTERVAL: None,
        BUSY_THRESHOLD: None,
        RESTRICT_PROCESSES: None,
        ALLOW_PROCESSES: None,
    }
}

fn s(v: &str) -> Option<String> {
    Some(v.to_string())
}

/// A complete, valid start environment.
fn full_env() -> StartConfigEnv {
    let mut e = empty_env();
    e.PROCESS_WASM_MEMORY_MAX_LIMIT = s("1_000");
    e.PROCESS_WASM_COMPUTE_MAX_LIMIT = s("1_000");
    e.MEM_MONITOR_INTERVAL = s("1_000");
    e.PROCESS_CHECKPOINT_CREATION_THROTTLE = s("1_000");
    e.EAGER_CHECKPOINT_THRESHOLD = s("1_000");
    e.WASM_EVALUATION_MAX_WORKERS = s("1_000");
    e.WASM_INSTANCE_CACHE_MAX_SIZE = s("1_000");
    e.WASM_MODULE_CACHE_MAX_SIZE = s("1_000");
    e.PROCESS_MEMORY_CACHE_MAX_SIZE = s("1_000");
    e.PROCESS_MEMORY_CACHE_TTL = s("1_000");
    e.PROCESS_MEMORY_CACHE_CHECKPOINT_INTERVAL = s("1_000");
    e.BUSY_THRESHOLD = s("1_000");
    e.GATEWAY_URL = s("https://arweave.net");
    e.MODE = s("development");
    e.port = s("6363");
    e.DUMP_PATH = s("./static");
    e.GRAPHQL_URL = s("https://arweave.net/graphql");
    e.CHECKPOINT_GRAPHQL_URL = s("https://arweave.net/graphql");
    e.ARWEAVE_URL = s("https://arweave.net");
    e.UPLOADER_URL = s("https://up.arweave.net");
    e.DB_URL = s("sqlite://cu.db");
    e.WALLET = s("{}");
    e.DISABLE_PROCESS_CHECKPOINT_CREATION = s("true");
    e.WASM_BINARY_FILE_DIRECTORY = s("/tmp/bin");
    e.PROCESS_IGNORE_ARWEAVE_CHECKPOINTS = s("");
    e.PROCESS_CHECKPOINT_FILE_DIRECTORY = s("/tmp/checkpoints");
    e.RESTRICT_PROCESSES = s("");
    e.ALLOW_PROCESSES = s("");
    e
}

fn parsed_ok() -> ParsedFields {
    ParsedFields {
        GRAPHQL_URL: Ok("https://arweave.net/graphql".to_string()),
        CHECKPOINT_GRAPHQL_URL: Ok("https://arweave.net/graphql".to_string()),
        ARWEAVE_URL: Ok("https://arweave.net".to_string()),
        UPLOADER_URL: Ok("https://up.arweave.net".to_string()),
        DB_URL: Ok("sqlite://cu.db".to_string()),
        WALLET: Ok("{}".to_string()),
        WASM_BINARY_FILE_DIRECTORY: Ok("/tmp/bin".to_string()),
        PROCESS_IGNORE_ARWEAVE_CHECKPOINTS: Ok(vec![]),
        PROCESS_CHECKPOINT_FILE_DIRECTORY: Ok("/tmp/checkpoints".to_string()),
        RESTRICT_PROCESSES: Ok(vec!["p1".to_string()]),
        ALLOW_PROCESSES: Ok(vec![]),
    }
}

fn checks_ok() -> FieldChecks {
    FieldChecks {
        GRAPHQL_URL: true,
        UPLOADER_URL: true,
        CHECKPOINT_GRAPHQL_URL: true,
        ARWEAVE_URL: true,
        PROCESS_IGNORE_ARWEAVE_CHECKPOINTS: true,
        RESTRICT_PROCESSES: true,
        ALLOW_PROCESSES: true,
    }
}

#[test]
fn positive_ints_with_and_without_underscores() {
    let a = try_parse_positive_int_schema(s("1000"), "X").unwrap().ok().unwrap();
    let b = try_parse_positive_int_schema(s("1_000"), "X").unwrap().ok().unwrap();
    assert_eq!(a, 1000);
    assert_eq!(b, 1000);
    let e = try_parse_positive_int_schema(None, "X").unwrap().err().unwrap();
    assert_eq!(e.violations[0].code, "invalid-empty");
}

#[test]
fn positive_int_errors() {
    let e = try_parse_positive_int_schema(s("abc"), "X").unwrap().err().unwrap();
    assert_eq!(e.message, Some("Provided invalid value for positive_int_schema".to_string()));
    assert_eq!(e.violations.len(), 1);
    assert_eq!(e.violations[0].code, "invalid-not-match-number");
    assert_eq!(e.violations[0].field, "X");
    assert_eq!(e.violations[0].actual, s("abc"));
    assert_eq!(e.violations[0].expected, s("number value"));
    let e = try_parse_positive_int_schema(s("-5"), "X").unwrap().err().unwrap();
    assert_eq!(e.violations[0].code, "invalid-not-match-underscore");
    let e = PositiveIntSchemaConstraint.validate(None, "Y").err().unwrap();
    assert_eq!(e.message, None);
    assert_eq!(e.violations[0].code, "invalid-empty");
    assert_eq!(e.violations[0].actual, None);
}

#[test]
fn positive_int_overflow_is_not_supported() {
    assert!(try_parse_positive_int_schema(s("99999999999999999999"), "X").is_none());
}

#[test]
fn booleans() {
    assert!(TruthyConstraint.is_boolean(s("true")));
    assert!(TruthyConstraint.is_boolean(s("false")));
    assert!(!TruthyConstraint.is_boolean(s("yes")));
    assert!(!TruthyConstraint.is_boolean(None));
    assert_eq!(parse_boolean_schema(s("false")).ok(), Some(false));
    assert_eq!(parse_boolean_schema(s("true")).ok(), Some(true));
    let e = parse_boolean_schema(s("1")).err().unwrap();
    assert_eq!(e.violations[0].code, "invalid-boolean");
    assert_eq!(e.violations[0].field, "DISABLE_PROCESS_CHECKPOINT_CREATION");
    assert_eq!(e.violations[0].actual, s("1"));
    assert_eq!(e.violations[0].expected, s("value must be js boolean"));
}

#[test]
fn optional_strings() {
    assert_eq!(get_empty_string(None), "");
    assert_eq!(get_empty_string(s("a")), "a");
    assert_eq!(get_number_string(None), "");
    assert_eq!(get_number_string(Some(-42)), "-42");
    assert!(None::<String>.is_none_or_empty());
    assert!(s("").is_none_or_empty());
    assert!(!s("x").is_none_or_empty());
}

#[test]
fn urls_default_from_the_gateway() {
    let mut e = empty_env();
    e.GATEWAY_URL = s("https://g.net");
    let c = preprocess_urls(e).ok().unwrap();
    assert_eq!(c.ARWEAVE_URL, s("https://g.net"));
    assert_eq!(c.GRAPHQL_URL, s("https://g.net/graphql"));
    assert_eq!(c.CHECKPOINT_GRAPHQL_URL, s("https://g.net/graphql"));
}

#[test]
fn urls_need_a_gateway() {
    let msg = |e: StartConfigEnv| match preprocess_urls(e) {
        Err(CuErrors::SchemaValidation(v)) => v.message,
        _ => panic!("expected a schema error"),
    };
    assert_eq!(
        msg(empty_env()),
        "GATEWAY_URL is required, if either ARWEAVE_URL or GRAPHQL_URL is not provided"
    );
    let mut e = empty_env();
    e.GRAPHQL_URL = s("g");
    assert_eq!(msg(e), "GATEWAY_URL is required if ARWEAVE_URL is not provided");
    let mut e = empty_env();
    e.ARWEAVE_URL = s("a");
    assert_eq!(msg(e), "GATEWAY_URL is required if GRAPHQL_URL is not provided");
    let mut e = empty_env();
    e.ARWEAVE_URL = s("a");
    e.GRAPHQL_URL = s("g");
    let c = preprocess_urls(e).ok().unwrap();
    assert_eq!(c.CHECKPOINT_GRAPHQL_URL, s("g"));
}

#[test]
fn preprocessing_twice_changes_nothing() {
    let mut e = empty_env();
    e.GATEWAY_URL = s("https://g.net");
    let once = preprocess_urls(e).ok().unwrap();
    let (a, g, c) = (once.ARWEAVE_URL.clone(), once.GRAPHQL_URL.clone(), once.CHECKPOINT_GRAPHQL_URL.clone());
    let twice = preprocess_urls(once).ok().unwrap();
    assert_eq!(twice.ARWEAVE_URL, a);
    assert_eq!(twice.GRAPHQL_URL, g);
    assert_eq!(twice.CHECKPOINT_GRAPHQL_URL, c);
}

#[test]
fn wallet_sources() {
    let mut e = empty_env();
    e.WALLET = s("{}");
    assert!(matches!(wallet_source(&e), Ok(WalletSource::Inline)));
    e.WALLET_FILE = s("w.json");
    match wallet_source(&e) {
        Err(CuErrors::SchemaValidation(v)) => assert_eq!(v.message, "Do not define both WALLET and WALLET_FILE"),
        _ => panic!("expected a schema error"),
    }
    e.WALLET = None;
    match wallet_source(&e) {
        Ok(WalletSource::File(p)) => assert_eq!(p, "w.json"),
        _ => panic!("expected a file"),
    }
    e.WALLET_FILE = s("");
    match wallet_source(&e) {
        Err(CuErrors::SchemaValidation(v)) => assert_eq!(v.message, "One of WALLET or WALLET_FILE is required"),
        _ => panic!("expected a schema error"),
    }
}

#[test]
fn domain_config_parses() {
    let start = StartDomainConfigSchema::new(full_env());
    let c = start.try_parse(parsed_ok()).unwrap().ok().unwrap();
    assert_eq!(c.PROCESS_WASM_MEMORY_MAX_LIMIT, 1000);
    assert_eq!(c.BUSY_THRESHOLD, 1000);
    assert!(c.DISABLE_PROCESS_CHECKPOINT_CREATION);
    assert_eq!(c.DB_URL, "sqlite://cu.db");
    assert_eq!(c.RESTRICT_PROCESSES, vec!["p1".to_string()]);
}

#[test]
fn domain_config_stops_at_the_first_failing_setting() {
    let mut env = full_env();
    env.MEM_MONITOR_INTERVAL = s("x");
    env.DISABLE_PROCESS_CHECKPOINT_CREATION = s("nope");
    let start = StartDomainConfigSchema::new(env);
    let mut parsed = parsed_ok();
    parsed.ALLOW_PROCESSES = Err(cu::errors::ValidationError { message: s("bad"), violations: vec![] });
    let e = start.try_parse(parsed).unwrap().err().unwrap();
    assert_eq!(e.violations[0].field, "MEM_MONITOR_INTERVAL");
    let mut parsed = parsed_ok();
    parsed.GRAPHQL_URL = Err(cu::errors::ValidationError { message: s("bad url"), violations: vec![] });
    let e = StartDomainConfigSchema::new(full_env()).try_parse(parsed).unwrap().err().unwrap();
    assert_eq!(e.message, s("bad url"));
}

#[test]
fn domain_config_validation_lists_every_violation() {
    let mut env = full_env();
    env.WALLET = None;
    env.BUSY_THRESHOLD = s("x");
    let start = StartDomainConfigSchema::new(env);
    let mut checks = checks_ok();
    checks.ARWEAVE_URL = false;
    let e = start
        .try_validate(&StartDomainConfigSchemaState, &StartDomainConfigSchemaConstraint, &checks)
        .unwrap()
        .err()
        .unwrap();
    let fields: Vec<(String, String)> = e.violations.iter().map(|v| (v.code.clone(), v.field.clone())).collect();
    assert_eq!(
        fields,
        vec![
            ("invalid-url".to_string(), "ARWEAVE_URL".to_string()),
            ("invalid-wallet".to_string(), "WALLET".to_string()),
            ("invalid-digits-integer".to_string(), "BUSY_THRESHOLD".to_string()),
        ]
    );
    assert_eq!(e.violations[0].actual, s(""));
    let ok = StartDomainConfigSchema::new(full_env());
    assert!(ok
        .try_validate(&StartDomainConfigSchemaState, &StartDomainConfigSchemaConstraint, &checks_ok())
        .unwrap()
        .is_ok());
}

#[test]
fn checkpoint_directory_check_reads_the_database_url() {
    let mut env = full_env();
    env.DB_URL = s("");
    let e = StartDomainConfigSchema::new(env)
        .try_validate(&StartDomainConfigSchemaState, &StartDomainConfigSchemaConstraint, &checks_ok())
        .unwrap()
        .err()
        .unwrap();
    let fields: Vec<String> = e.violations.iter().map(|v| v.field.clone()).collect();
    assert_eq!(fields, vec!["DB_URL".to_string(), "PROCESS_CHECKPOINT_FILE_DIRECTORY".to_string()]);
    let mut env = full_env();
    env.DB_URL = None;
    assert!(StartDomainConfigSchema::new(env)
        .try_validate(&StartDomainConfigSchemaState, &StartDomainConfigSchemaConstraint, &checks_ok())
        .is_none());
}

#[test]
fn domain_config_default_is_empty() {
    let d = DomainConfigSchema::default();
    assert_eq!(d.PROCESS_WASM_MEMORY_MAX_LIMIT, 0);
    assert_eq!(d.GRAPHQL_URL, "");
    assert!(!d.DISABLE_PROCESS_CHECKPOINT_CREATION);
    assert!(d.ALLOW_PROCESSES.is_empty());
}

#[test]
fn domain_config_is_parsed_once() {
    let mut cell = DomainConfigCell::new();
    assert!(domain_config_schema(&mut cell, StartDomainConfigSchema::new(full_env()), parsed_ok()));
    let first = match &cell.value {
        Some(Ok(c)) => c.BUSY_THRESHOLD,
        _ => panic!("expected a parsed configuration"),
    };
    let mut env = full_env();
    env.BUSY_THRESHOLD = s("5");
    assert!(domain_config_schema(&mut cell, StartDomainConfigSchema::new(env), parsed_ok()));
    match &cell.value {
        Some(Ok(c)) => assert_eq!(c.BUSY_THRESHOLD, first),
        _ => panic!("expected a parsed configuration"),
    }
}

#[test]
fn server_config_parses() {
    let env = full_env();
    let base = StartDomainConfigSchema::new(full_env());
    let start = StartServerConfigSchema::new(env, base);
    let c = start.try_parse(parsed_ok(), &checks_ok()).unwrap().ok().unwrap();
    assert!(c.MODE == DevOrProd::Development);
    assert_eq!(c.port, 6363);
    assert_eq!(c.DUMP_PATH, "./static");
    assert_eq!(c.GATEWAY_URL, "");
    assert_eq!(c.base.BUSY_THRESHOLD, 1000);
}

#[test]
fn server_config_validation() {
    let mut env = full_env();
    env.MODE = s("staging");
    env.port = s("70000");
    env.DUMP_PATH = None;
    env.GATEWAY_URL = s("");
    let base = StartDomainConfigSchema::new(full_env());
    let start = StartServerConfigSchema::new(env, base);
    let e = start.try_parse(parsed_ok(), &checks_ok()).unwrap().err().unwrap();
    let codes: Vec<String> = e.violations.iter().map(|v| v.code.clone()).collect();
    assert_eq!(
        codes,
        vec![
            "invalid-mode".to_string(),
            "invalid-port".to_string(),
            "invalid-dump-path".to_string(),
            "invalid-gateway-url".to_string(),
        ]
    );
    let mut env = full_env();
    env.MODE = s("production");
    let start = StartServerConfigSchema::new(env, StartDomainConfigSchema::new(full_env()));
    assert!(ServerConfigConstraint.is_valid_mode(&start));
    assert!(ServerConfigConstraint.is_valid_port(&start));
    assert!(ServerConfigConstraint.is_valid_dump_path(&start));
    assert!(ServerConfigConstraint.is_valid_gateway_url(&start));
    let c = start.try_parse(parsed_ok(), &checks_ok()).unwrap().ok().unwrap();
    assert!(c.MODE == DevOrProd::Production);
}

#[test]
fn server_config_default() {
    let d = ServerConfigSchema::default();
    assert!(d.MODE == DevOrProd::Development);
    assert_eq!(d.port, 0);
    assert_eq!(d.DUMP_PATH, "");
}

#[test]
fn parse_stops_before_an_overflowing_setting() {
    let mut env = full_env();
    env.MEM_MONITOR_INTERVAL = s("x");
    env.BUSY_THRESHOLD = s("99999999999999999999");
    let e = StartDomainConfigSchema::new(env).try_parse(parsed_ok()).unwrap().err().unwrap();
    assert_eq!(e.violations[0].field, "MEM_MONITOR_INTERVAL");
    let mut env = full_env();
    env.BUSY_THRESHOLD = s("99999999999999999999");
    assert!(StartDomainConfigSchema::new(env).try_parse(parsed_ok()).is_none());
    let mut env = full_env();
    env.MEM_MONITOR_INTERVAL = s("x");
    env.DB_URL = None;
    let start = StartServerConfigSchema::new(full_env(), StartDomainConfigSchema::new(env));
    let e = start.try_parse(parsed_ok(), &checks_ok()).unwrap().err().unwrap();
    assert_eq!(e.violations[0].field, "MEM_MONITOR_INTERVAL");
}

#[test]
fn checkpoint_switch_reads_its_value() {
    let mut env = full_env();
    env.DISABLE_PROCESS_CHECKPOINT_CREATION = s("false");
    let c = StartDomainConfigSchema::new(env).try_parse(parsed_ok()).unwrap().ok().unwrap();
    assert!(!c.DISABLE_PROCESS_CHECKPOINT_CREATION);
}
