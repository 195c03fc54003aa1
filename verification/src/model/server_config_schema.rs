//! The server configuration: the domain settings together with the mode,
//! port, dump path and gateway URL the server runs with.
use vstd::prelude::*;
use crate::config::StartConfigEnv;
use crate::errors::{
    field_violation, ConstraintViolation, ValidationError, ValidationErrorView, ViolationView,
};
use crate::model::domain_config_schema::{
    clone_setting, default_domain_config, flag, lemma_concat_holds, lemma_flag_holds,
    lemma_holds_contains, lemma_violation_names, parse_reachable_supported, push_if, spec_parse,
    spec_violations,
    DomainConfigSchema, DomainConfigSchemaView, FieldChecks, ParsedFields, StartDomainConfigSchema,
    StartDomainConfigSchemaConstraint, StartDomainConfigSchemaState,
};
use crate::strings::{none_or_empty, IsNoneOrEmpty};
use crate::text::{parse_u16, spec_parse_u16, str_eq};

verus! {

pub const INVALID_MODE: &'static str = "invalid-mode";

pub const INVALID_PORT: &'static str = "invalid-port";

pub const INVALID_DUMP_PATH: &'static str = "invalid-dump-path";

pub const INVALID_GATEWAY_URL: &'static str = "invalid-gateway-url";

pub const DEVELOPMENT: &'static str = "development";

pub const PRODUCTION: &'static str = "production";

/// The server settings as read from the environment.
#[allow(non_snake_case)]
pub struct StartServerConfigSchema {
    pub GATEWAY_URL: Option<String>,
    pub base: StartDomainConfigSchema,
    pub MODE: Option<String>,
    pub port: Option<String>,
    pub DUMP_PATH: Option<String>,
}

impl StartServerConfigSchema {
    /// The server settings of the start environment, over the domain
    /// settings `start_domain_config`.
    pub fn new(start_config: StartConfigEnv, start_domain_config: StartDomainConfigSchema) -> (s:
        Self)
        ensures
            s.GATEWAY_URL == start_config.GATEWAY_URL,
            s.base == start_domain_config,
            s.MODE == start_config.MODE,
            s.port == start_config.port,
            s.DUMP_PATH == start_config.DUMP_PATH,
    {
        StartServerConfigSchema {
            GATEWAY_URL: start_config.GATEWAY_URL,
            base: start_domain_config,
            MODE: start_config.MODE,
            port: start_config.port,
            DUMP_PATH: start_config.DUMP_PATH,
        }
    }
}

impl Clone for StartServerConfigSchema {
    fn clone(&self) -> (r: Self)
        ensures
            r == *self,
    {
        StartServerConfigSchema {
            GATEWAY_URL: clone_setting(&self.GATEWAY_URL),
            base: self.base.clone(),
            MODE: clone_setting(&self.MODE),
            port: clone_setting(&self.port),
            DUMP_PATH: clone_setting(&self.DUMP_PATH),
        }
    }
}

/// Whether the server runs for development or in production.
#[derive(PartialEq, Eq, Structural, Clone, Copy)]
pub enum DevOrProd {
    Development,
    Production,
}

/// The parsed server settings. The domain configuration extends to the
/// environment the server runs in, so that the domain need not know it.
#[allow(non_snake_case)]
pub struct ServerConfigSchema {
    pub GATEWAY_URL: String,
    pub base: DomainConfigSchema,
    pub MODE: DevOrProd,
    pub port: u16,
    pub DUMP_PATH: String,
}

/// The parsed server settings, text as character sequences.
#[allow(non_snake_case)]
pub struct ServerConfigSchemaView {
    pub GATEWAY_URL: Seq<char>,
    pub base: DomainConfigSchemaView,
    pub MODE: DevOrProd,
    pub port: u16,
    pub DUMP_PATH: Seq<char>,
}

impl View for ServerConfigSchema {
    type V = ServerConfigSchemaView;

    open spec fn view(&self) -> ServerConfigSchemaView {
        ServerConfigSchemaView {
            GATEWAY_URL: self.GATEWAY_URL@,
            base: self.base@,
            MODE: self.MODE,
            port: self.port,
            DUMP_PATH: self.DUMP_PATH@,
        }
    }
}

impl Default for ServerConfigSchema {
    fn default() -> (c: Self)
        ensures
            c.GATEWAY_URL@ == Seq::<char>::empty(),
            c.base@ == default_domain_config(),
            c.MODE == DevOrProd::Development,
            c.port == 0,
            c.DUMP_PATH@ == Seq::<char>::empty(),
    {
        ServerConfigSchema {
            GATEWAY_URL: String::new(),
            base: DomainConfigSchema::default(),
            MODE: DevOrProd::Development,
            port: 0,
            DUMP_PATH: String::new(),
        }
    }
}

/// Whether a mode is `development` or `production`.
pub open spec fn valid_mode(mode: Option<Seq<char>>) -> bool {
    mode == Some(DEVELOPMENT@) || mode == Some(PRODUCTION@)
}

/// Whether a port is present and reads as a 16-bit port number.
pub open spec fn valid_port(port: Option<Seq<char>>) -> bool {
    match port {
        Some(p) => spec_parse_u16(p) is Some,
        None => false,
    }
}

/// The checks of the server's own settings.
pub struct ServerConfigConstraint;

/// The state the validation of the server settings runs in.
pub struct ServerConfigState;

impl ServerConfigConstraint {
    /// Whether the gateway URL is present and not empty.
    pub fn is_valid_gateway_url(&self, val: &StartServerConfigSchema) -> (b: bool)
        ensures
            b == !none_or_empty(val.GATEWAY_URL.deep_view()),
    {
        !val.GATEWAY_URL.is_none_or_empty()
    }

    /// Whether the mode is `development` or `production`.
    pub fn is_valid_mode(&self, val: &StartServerConfigSchema) -> (b: bool)
        ensures
            b == valid_mode(val.MODE.deep_view()),
    {
        match &val.MODE {
            Some(m) => str_eq(m.as_str(), DEVELOPMENT) || str_eq(m.as_str(), PRODUCTION),
            None => false,
        }
    }

    /// Whether the port is present and reads as a 16-bit port number.
    pub fn is_valid_port(&self, val: &StartServerConfigSchema) -> (b: bool)
        ensures
            b == valid_port(val.port.deep_view()),
    {
        match &val.port {
            Some(p) => parse_u16(p.as_str()).is_some(),
            None => false,
        }
    }

    /// Whether the dump path is present and not empty.
    pub fn is_valid_dump_path(&self, val: &StartServerConfigSchema) -> (b: bool)
        ensures
            b == !none_or_empty(val.DUMP_PATH.deep_view()),
    {
        !val.DUMP_PATH.is_none_or_empty()
    }
}

/// The violations of the server settings: those of the domain settings,
/// then mode, port, dump path and gateway URL where they are refused.
pub open spec fn spec_server_violations(s: StartServerConfigSchema, checks: FieldChecks) -> Seq<
    ViolationView,
> {
    spec_violations(s.base, checks) + flag(!valid_mode(s.MODE.deep_view()), INVALID_MODE@, "MODE"@)
        + flag(!valid_port(s.port.deep_view()), INVALID_PORT@, "port"@) + flag(
        none_or_empty(s.DUMP_PATH.deep_view()),
        INVALID_DUMP_PATH@,
        "DUMP_PATH"@,
    ) + flag(none_or_empty(s.GATEWAY_URL.deep_view()), INVALID_GATEWAY_URL@, "GATEWAY_URL"@)
}

/// Whether the domain settings can be validated: see
/// `StartDomainConfigSchema::validate`.
pub open spec fn base_checkable(b: StartDomainConfigSchema) -> bool {
    !none_or_empty(b.PROCESS_CHECKPOINT_FILE_DIRECTORY.deep_view()) ==> b.DB_URL is Some
}

impl StartServerConfigSchema {
    /// Validates the server settings (see `spec_server_violations`): `Ok`
    /// with the settings where nothing is violated, otherwise every
    /// violation.
    pub fn validate(
        self,
        _context: &ServerConfigState,
        constraint: &ServerConfigConstraint,
        checks: &FieldChecks,
    ) -> (r: Result<Self, ValidationError>)
        requires
            base_checkable(self.base),
        ensures
            ({
                let v = spec_server_violations(self, *checks);
                match r {
                    Ok(x) => v.len() == 0 && x == self,
                    Err(e) => v.len() > 0 && e@ == ValidationErrorView { message: None, violations: v },
                }
            }),
    {
        let mut violations: Vec<ConstraintViolation> = match self.base.clone().validate(
            &StartDomainConfigSchemaState,
            &StartDomainConfigSchemaConstraint,
            checks,
        ) {
            Ok(_) => Vec::new(),
            Err(e) => e.violations,
        };
        assert(violations@.map_values(|c: ConstraintViolation| c@) =~= spec_violations(
            self.base,
            *checks,
        ));
        let failed = !constraint.is_valid_mode(&self);
        push_if(&mut violations, failed, INVALID_MODE, "MODE");
        let failed = !constraint.is_valid_port(&self);
        push_if(&mut violations, failed, INVALID_PORT, "port");
        let failed = !constraint.is_valid_dump_path(&self);
        push_if(&mut violations, failed, INVALID_DUMP_PATH, "DUMP_PATH");
        let failed = !constraint.is_valid_gateway_url(&self);
        push_if(&mut violations, failed, INVALID_GATEWAY_URL, "GATEWAY_URL");
        if violations.len() > 0 {
            return Err(ValidationError { message: None, violations });
        }
        Ok(self)
    }
}

/// Whether an executed server parse agrees with its specified outcome.
pub open spec fn server_parse_agrees(
    r: Result<ServerConfigSchema, ValidationError>,
    s: Result<ServerConfigSchemaView, ValidationErrorView>,
) -> bool {
    match (r, s) {
        (Ok(c), Ok(v)) => c@ == v,
        (Err(e), Err(f)) => e@ == f,
        _ => false,
    }
}

/// The parsed server settings: the domain settings' parse error if they
/// fail to parse; otherwise the validation error where the server settings
/// have violations; otherwise the parsed domain settings, development mode
/// exactly where the mode is `development`, the port, the dump path, and an
/// empty gateway URL.
pub open spec fn spec_server_parse(
    s: StartServerConfigSchema,
    parsed: ParsedFields,
    checks: FieldChecks,
) -> Result<ServerConfigSchemaView, ValidationErrorView> {
    match spec_parse(s.base, parsed) {
        Err(e) => Err(e),
        Ok(b) => {
            let v = spec_server_violations(s, checks);
            if v.len() > 0 {
                Err(ValidationErrorView { message: None, violations: v })
            } else {
                Ok(server_config_over(s, b))
            }
        },
    }
}

/// The parsed server settings over the parsed domain settings `base`, where
/// the server settings have no violations: development mode exactly where
/// the mode is `development`, the port, the dump path, and an empty gateway
/// URL.
pub open spec fn server_config_over(
    s: StartServerConfigSchema,
    base: DomainConfigSchemaView,
) -> ServerConfigSchemaView {
    ServerConfigSchemaView {
        GATEWAY_URL: Seq::empty(),
        base,
        MODE: if s.MODE.deep_view() == Some(DEVELOPMENT@) {
            DevOrProd::Development
        } else {
            DevOrProd::Production
        },
        port: spec_parse_u16(s.port->0@)->0,
        DUMP_PATH: s.DUMP_PATH->0@,
    }
}

/// Whether the server settings can be parsed without a parser failing on
/// its own: the domain settings' numeric values reached are supported, and
/// where the domain settings parse, they can be validated.
pub open spec fn server_parse_supported(s: StartServerConfigSchema, parsed: ParsedFields) -> bool {
    &&& parse_reachable_supported(s.base, parsed)
    &&& spec_parse(s.base, parsed) is Ok ==> base_checkable(s.base)
}

impl StartServerConfigSchema {
    fn finish(&self, base: DomainConfigSchema, checks: &FieldChecks) -> (r: Result<
        ServerConfigSchema,
        ValidationError,
    >)
        requires
            base_checkable(self.base),
        ensures
            ({
                let v = spec_server_violations(*self, *checks);
                if v.len() > 0 {
                    r matches Err(e) && e@ == ValidationErrorView { message: None, violations: v }
                } else {
                    r matches Ok(c) && c@ == server_config_over(*self, base@)
                }
            }),
    {
        let mut final_server_config = ServerConfigSchema::default();
        final_server_config.base = base;
        match self.clone().validate(&ServerConfigState, &ServerConfigConstraint, checks) {
            Ok(server_config) => {
                final_server_config.MODE = match &server_config.MODE {
                    Some(m) => if str_eq(m.as_str(), DEVELOPMENT) {
                        DevOrProd::Development
                    } else {
                        DevOrProd::Production
                    },
                    None => DevOrProd::Production,
                };
                final_server_config.port = match &server_config.port {
                    Some(p) => match parse_u16(p.as_str()) {
                        Some(n) => n,
                        None => 0,
                    },
                    None => 0,
                };
                final_server_config.DUMP_PATH = match server_config.DUMP_PATH {
                    Some(d) => d,
                    None => String::new(),
                };
            },
            Err(e) => return Err(e),
        }
        Ok(final_server_config)
    }

    /// Parses the server settings (see `spec_server_parse`), with the
    /// outcomes of the domain settings' other parsers in `parsed` and of
    /// their URL and list checks in `checks`. The domain settings must be
    /// parseable (see `server_parse_supported`).
    pub fn parse(&self, parsed: ParsedFields, checks: &FieldChecks) -> (r: Result<
        ServerConfigSchema,
        ValidationError,
    >)
        requires
            server_parse_supported(*self, parsed),
        ensures
            server_parse_agrees(r, spec_server_parse(*self, parsed, *checks)),
    {
        match self.base.parse(parsed) {
            Ok(base) => self.finish(base, checks),
            Err(e) => Err(e),
        }
    }

    /// Parses the server settings where they are parseable (see
    /// `server_parse_supported`); `None` otherwise.
    pub fn try_parse(&self, parsed: ParsedFields, checks: &FieldChecks) -> (r: Option<
        Result<ServerConfigSchema, ValidationError>,
    >)
        ensures
            r is Some <==> server_parse_supported(*self, parsed),
            r matches Some(res) ==> server_parse_agrees(
                res,
                spec_server_parse(*self, parsed, *checks),
            ),
    {
        let b = &self.base;
        match b.try_parse(parsed) {
            None => None,
            Some(Err(e)) => Some(Err(e)),
            Some(Ok(base)) => {
                if b.PROCESS_CHECKPOINT_FILE_DIRECTORY.is_none_or_empty() || b.DB_URL.is_some() {
                    Some(self.finish(base, checks))
                } else {
                    None
                }
            },
        }
    }
}

/// A name of the server's own settings is none of the domain settings'
/// names.
proof fn lemma_server_names_are_new(field: Seq<char>)
    requires
        field == "MODE"@
            || field == "port"@
            || field == "DUMP_PATH"@
            || field == "GATEWAY_URL"@,
    ensures
        !(field == "PROCESS_WASM_MEMORY_MAX_LIMIT"@
            || field == "PROCESS_WASM_COMPUTE_MAX_LIMIT"@
            || field == "GRAPHQL_URL"@
            || field == "UPLOADER_URL"@
            || field == "CHECKPOINT_GRAPHQL_URL"@
            || field == "ARWEAVE_URL"@
            || field == "DB_URL"@
            || field == "WALLET"@
            || field == "MEM_MONITOR_INTERVAL"@
            || field == "PROCESS_CHECKPOINT_CREATION_THROTTLE"@
            || field == "DISABLE_PROCESS_CHECKPOINT_CREATION"@
            || field == "EAGER_CHECKPOINT_THRESHOLD"@
            || field == "WASM_EVALUATION_MAX_WORKERS"@
            || field == "WASM_INSTANCE_CACHE_MAX_SIZE"@
            || field == "WASM_MODULE_CACHE_MAX_SIZE"@
            || field == "WASM_BINARY_FILE_DIRECTORY"@
            || field == "PROCESS_IGNORE_ARWEAVE_CHECKPOINTS"@
            || field == "PROCESS_CHECKPOINT_FILE_DIRECTORY"@
            || field == "PROCESS_MEMORY_CACHE_MAX_SIZE"@
            || field == "PROCESS_MEMORY_CACHE_TTL"@
            || field == "PROCESS_MEMORY_CACHE_CHECKPOINT_INTERVAL"@
            || field == "BUSY_THRESHOLD"@
            || field == "RESTRICT_PROCESSES"@
            || field == "ALLOW_PROCESSES"@),
{
    reveal_strlit("PROCESS_WASM_MEMORY_MAX_LIMIT");
    assert("PROCESS_WASM_MEMORY_MAX_LIMIT"@.len() == 29);
    reveal_strlit("PROCESS_WASM_COMPUTE_MAX_LIMIT");
    assert("PROCESS_WASM_COMPUTE_MAX_LIMIT"@.len() == 30);
    reveal_strlit("GRAPHQL_URL");
    assert("GRAPHQL_URL"@.len() == 11);
    reveal_strlit("UPLOADER_URL");
    assert("UPLOADER_URL"@.len() == 12);
    reveal_strlit("CHECKPOINT_GRAPHQL_URL");
    assert("CHECKPOINT_GRAPHQL_URL"@.len() == 22);
    reveal_strlit("ARWEAVE_URL");
    assert("ARWEAVE_URL"@.len() == 11);
    reveal_strlit("DB_URL");
    assert("DB_URL"@.len() == 6);
    reveal_strlit("WALLET");
    assert("WALLET"@.len() == 6);
    reveal_strlit("MEM_MONITOR_INTERVAL");
    assert("MEM_MONITOR_INTERVAL"@.len() == 20);
    reveal_strlit("PROCESS_CHECKPOINT_CREATION_THROTTLE");
    assert("PROCESS_CHECKPOINT_CREATION_THROTTLE"@.len() == 36);
    reveal_strlit("DISABLE_PROCESS_CHECKPOINT_CREATION");
    assert("DISABLE_PROCESS_CHECKPOINT_CREATION"@.len() == 35);
    reveal_strlit("EAGER_CHECKPOINT_THRESHOLD");
    assert("EAGER_CHECKPOINT_THRESHOLD"@.len() == 26);
    reveal_strlit("WASM_EVALUATION_MAX_WORKERS");
    assert("WASM_EVALUATION_MAX_WORKERS"@.len() == 27);
    reveal_strlit("WASM_INSTANCE_CACHE_MAX_SIZE");
    assert("WASM_INSTANCE_CACHE_MAX_SIZE"@.len() == 28);
    reveal_strlit("WASM_MODULE_CACHE_MAX_SIZE");
    assert("WASM_MODULE_CACHE_MAX_SIZE"@.len() == 26);
    reveal_strlit("WASM_BINARY_FILE_DIRECTORY");
    assert("WASM_BINARY_FILE_DIRECTORY"@.len() == 26);
    reveal_strlit("PROCESS_IGNORE_ARWEAVE_CHECKPOINTS");
    assert("PROCESS_IGNORE_ARWEAVE_CHECKPOINTS"@.len() == 34);
    reveal_strlit("PROCESS_CHECKPOINT_FILE_DIRECTORY");
    assert("PROCESS_CHECKPOINT_FILE_DIRECTORY"@.len() == 33);
    reveal_strlit("PROCESS_MEMORY_CACHE_MAX_SIZE");
    assert("PROCESS_MEMORY_CACHE_MAX_SIZE"@.len() == 29);
    reveal_strlit("PROCESS_MEMORY_CACHE_TTL");
    assert("PROCESS_MEMORY_CACHE_TTL"@.len() == 24);
    reveal_strlit("PROCESS_MEMORY_CACHE_CHECKPOINT_INTERVAL");
    assert("PROCESS_MEMORY_CACHE_CHECKPOINT_INTERVAL"@.len() == 40);
    reveal_strlit("BUSY_THRESHOLD");
    assert("BUSY_THRESHOLD"@.len() == 14);
    reveal_strlit("RESTRICT_PROCESSES");
    assert("RESTRICT_PROCESSES"@.len() == 18);
    reveal_strlit("ALLOW_PROCESSES");
    assert("ALLOW_PROCESSES"@.len() == 15);
    reveal_strlit("MODE");
    assert("MODE"@.len() == 4);
    reveal_strlit("port");
    assert("port"@.len() == 4);
    reveal_strlit("DUMP_PATH");
    assert("DUMP_PATH"@.len() == 9);
    reveal_strlit("GATEWAY_URL");
    assert("GATEWAY_URL"@.len() == 11);
    assert("GATEWAY_URL"@[1] != "GRAPHQL_URL"@[1]);
    assert("GATEWAY_URL"@[0] != "ARWEAVE_URL"@[0]);
}

/// Server validation reports every violation of the domain settings, and
/// each of the server's own settings exactly where it is refused: the mode
/// where it is neither development nor production, the port where it is not
/// a 16-bit number, and the dump path and gateway URL where absent or empty.
pub proof fn server_validation_reports_each_refused_setting(s: StartServerConfigSchema, checks: FieldChecks)
    ensures
        forall|x: ViolationView| #[trigger]
            spec_violations(s.base, checks).contains(x) ==> spec_server_violations(s, checks).contains(x),
        spec_server_violations(s, checks).contains(field_violation(INVALID_MODE@, "MODE"@, Seq::empty(), Seq::empty())) <==> !valid_mode(s.MODE.deep_view()),
        spec_server_violations(s, checks).contains(field_violation(INVALID_PORT@, "port"@, Seq::empty(), Seq::empty())) <==> !valid_port(s.port.deep_view()),
        spec_server_violations(s, checks).contains(field_violation(INVALID_DUMP_PATH@, "DUMP_PATH"@, Seq::empty(), Seq::empty())) <==> none_or_empty(s.DUMP_PATH.deep_view()),
        spec_server_violations(s, checks).contains(field_violation(INVALID_GATEWAY_URL@, "GATEWAY_URL"@, Seq::empty(), Seq::empty())) <==> none_or_empty(s.GATEWAY_URL.deep_view()),
{
    let base = spec_violations(s.base, checks);
    let t0 = flag(!valid_mode(s.MODE.deep_view()), INVALID_MODE@, "MODE"@);
    let t1 = flag(!valid_port(s.port.deep_view()), INVALID_PORT@, "port"@);
    let t2 = flag(none_or_empty(s.DUMP_PATH.deep_view()), INVALID_DUMP_PATH@, "DUMP_PATH"@);
    let t3 = flag(none_or_empty(s.GATEWAY_URL.deep_view()), INVALID_GATEWAY_URL@, "GATEWAY_URL"@);
    let all = spec_server_violations(s, checks);
    assert(all == base + t0 + t1 + t2 + t3);
    lemma_holds_contains(all);
    lemma_holds_contains(base);
    assert forall|x: ViolationView| #[trigger] base.contains(x) implies all.contains(x) by {
        lemma_concat_holds(base, t0, x);
        lemma_concat_holds(base + t0, t1, x);
        lemma_concat_holds(base + t0 + t1, t2, x);
        lemma_concat_holds(base + t0 + t1 + t2, t3, x);
    }
    let x0 = field_violation(INVALID_MODE@, "MODE"@, Seq::empty(), Seq::empty());
    lemma_concat_holds(base, t0, x0);
    lemma_concat_holds(base + t0, t1, x0);
    lemma_concat_holds(base + t0 + t1, t2, x0);
    lemma_concat_holds(base + t0 + t1 + t2, t3, x0);
    lemma_flag_holds(!valid_mode(s.MODE.deep_view()), INVALID_MODE@, "MODE"@, x0);
    lemma_flag_holds(!valid_port(s.port.deep_view()), INVALID_PORT@, "port"@, x0);
    lemma_flag_holds(none_or_empty(s.DUMP_PATH.deep_view()), INVALID_DUMP_PATH@, "DUMP_PATH"@, x0);
    lemma_flag_holds(none_or_empty(s.GATEWAY_URL.deep_view()), INVALID_GATEWAY_URL@, "GATEWAY_URL"@, x0);
    if base.contains(x0) {
        lemma_violation_names(s.base, checks, x0);
        lemma_server_names_are_new("MODE"@);
    }
    let x1 = field_violation(INVALID_PORT@, "port"@, Seq::empty(), Seq::empty());
    lemma_concat_holds(base, t0, x1);
    lemma_concat_holds(base + t0, t1, x1);
    lemma_concat_holds(base + t0 + t1, t2, x1);
    lemma_concat_holds(base + t0 + t1 + t2, t3, x1);
    lemma_flag_holds(!valid_mode(s.MODE.deep_view()), INVALID_MODE@, "MODE"@, x1);
    lemma_flag_holds(!valid_port(s.port.deep_view()), INVALID_PORT@, "port"@, x1);
    lemma_flag_holds(none_or_empty(s.DUMP_PATH.deep_view()), INVALID_DUMP_PATH@, "DUMP_PATH"@, x1);
    lemma_flag_holds(none_or_empty(s.GATEWAY_URL.deep_view()), INVALID_GATEWAY_URL@, "GATEWAY_URL"@, x1);
    if base.contains(x1) {
        lemma_violation_names(s.base, checks, x1);
        lemma_server_names_are_new("port"@);
    }
    let x2 = field_violation(INVALID_DUMP_PATH@, "DUMP_PATH"@, Seq::empty(), Seq::empty());
    lemma_concat_holds(base, t0, x2);
    lemma_concat_holds(base + t0, t1, x2);
    lemma_concat_holds(base + t0 + t1, t2, x2);
    lemma_concat_holds(base + t0 + t1 + t2, t3, x2);
    lemma_flag_holds(!valid_mode(s.MODE.deep_view()), INVALID_MODE@, "MODE"@, x2);
    lemma_flag_holds(!valid_port(s.port.deep_view()), INVALID_PORT@, "port"@, x2);
    lemma_flag_holds(none_or_empty(s.DUMP_PATH.deep_view()), INVALID_DUMP_PATH@, "DUMP_PATH"@, x2);
    lemma_flag_holds(none_or_empty(s.GATEWAY_URL.deep_view()), INVALID_GATEWAY_URL@, "GATEWAY_URL"@, x2);
    if base.contains(x2) {
        lemma_violation_names(s.base, checks, x2);
        lemma_server_names_are_new("DUMP_PATH"@);
    }
    let x3 = field_violation(INVALID_GATEWAY_URL@, "GATEWAY_URL"@, Seq::empty(), Seq::empty());
    lemma_concat_holds(base, t0, x3);
    lemma_concat_holds(base + t0, t1, x3);
    lemma_concat_holds(base + t0 + t1, t2, x3);
    lemma_concat_holds(base + t0 + t1 + t2, t3, x3);
    lemma_flag_holds(!valid_mode(s.MODE.deep_view()), INVALID_MODE@, "MODE"@, x3);
    lemma_flag_holds(!valid_port(s.port.deep_view()), INVALID_PORT@, "port"@, x3);
    lemma_flag_holds(none_or_empty(s.DUMP_PATH.deep_view()), INVALID_DUMP_PATH@, "DUMP_PATH"@, x3);
    lemma_flag_holds(none_or_empty(s.GATEWAY_URL.deep_view()), INVALID_GATEWAY_URL@, "GATEWAY_URL"@, x3);
    if base.contains(x3) {
        lemma_violation_names(s.base, checks, x3);
        lemma_server_names_are_new("GATEWAY_URL"@);
    }
    reveal_strlit("MODE");
    reveal_strlit("port");
    reveal_strlit("DUMP_PATH");
    reveal_strlit("GATEWAY_URL");
    assert("MODE"@[0] != "port"@[0]);
    assert("MODE"@.len() != "DUMP_PATH"@.len());
    assert("MODE"@.len() != "GATEWAY_URL"@.len());
    assert("port"@.len() != "DUMP_PATH"@.len());
    assert("port"@.len() != "GATEWAY_URL"@.len());
    assert("DUMP_PATH"@.len() != "GATEWAY_URL"@.len());
}

} // verus!
