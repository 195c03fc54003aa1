//! Preprocessing of the start environment: where the wallet comes from, and
//! the defaults of the gateway URLs.
use vstd::prelude::*;
use crate::config::{StartConfigEnv, StartConfigEnvView};
use crate::errors::{schema_error, CuErrors};
use crate::strings::{none_or_empty, IsNoneOrEmpty};
use crate::text::{
    lemma_seq_lt_asymmetric, lemma_seq_lt_irreflexive, lemma_seq_lt_transitive, seq_lt, str_eq, str_lt,
};

verus! {

pub const URLS_BOTH_NEED_GATEWAY: &'static str = "GATEWAY_URL is required, if either ARWEAVE_URL or GRAPHQL_URL is not provided";

pub const ARWEAVE_URL_NEEDS_GATEWAY: &'static str = "GATEWAY_URL is required if ARWEAVE_URL is not provided";

pub const GRAPHQL_URL_NEEDS_GATEWAY: &'static str = "GATEWAY_URL is required if GRAPHQL_URL is not provided";

pub const WALLET_REQUIRED: &'static str = "One of WALLET or WALLET_FILE is required";

pub const WALLET_DEFINED_TWICE: &'static str = "Do not define both WALLET and WALLET_FILE";

/// The path appended to the gateway URL to reach its GraphQL endpoint.
pub const GRAPHQL_PATH: &'static str = "/graphql";

/// The URL settings after defaults are filled in from the gateway URL, or the
/// message of the error where the gateway URL is needed and missing.
pub open spec fn spec_preprocess_urls(c: StartConfigEnvView) -> Result<StartConfigEnvView, Seq<char>> {
    let arweave_missing = none_or_empty(c.ARWEAVE_URL);
    let graphql_missing = none_or_empty(c.GRAPHQL_URL);
    let checkpoint_missing = none_or_empty(c.CHECKPOINT_GRAPHQL_URL);
    let gateway_missing = none_or_empty(c.GATEWAY_URL);
    if !arweave_missing && !graphql_missing && !checkpoint_missing {
        Ok(c)
    } else if gateway_missing && arweave_missing && graphql_missing {
        Err(URLS_BOTH_NEED_GATEWAY@)
    } else if gateway_missing && arweave_missing {
        Err(ARWEAVE_URL_NEEDS_GATEWAY@)
    } else if gateway_missing && graphql_missing {
        Err(GRAPHQL_URL_NEEDS_GATEWAY@)
    } else {
        let arweave = if arweave_missing {
            c.GATEWAY_URL
        } else {
            c.ARWEAVE_URL
        };
        let graphql = if graphql_missing {
            Some(c.GATEWAY_URL.unwrap() + GRAPHQL_PATH@)
        } else {
            c.GRAPHQL_URL
        };
        let checkpoint = if checkpoint_missing {
            graphql
        } else {
            c.CHECKPOINT_GRAPHQL_URL
        };
        Ok(
            StartConfigEnvView {
                ARWEAVE_URL: arweave,
                GRAPHQL_URL: graphql,
                CHECKPOINT_GRAPHQL_URL: checkpoint,
                ..c
            },
        )
    }
}

/// Fills in ARWEAVE_URL and GRAPHQL_URL from GATEWAY_URL where they are
/// missing (GRAPHQL_URL as the gateway URL followed by `/graphql`), and
/// CHECKPOINT_GRAPHQL_URL from GRAPHQL_URL. Refuses, with a schema error,
/// to go on without a gateway URL when one of the first two is missing.
pub fn preprocess_urls(config: StartConfigEnv) -> (r: Result<StartConfigEnv, CuErrors>)
    ensures
        match (r, spec_preprocess_urls(config@)) {
            (Ok(c), Ok(v)) => c@ == v,
            (Err(e), Err(m)) => e matches CuErrors::SchemaValidation(s) && s.message@ == m,
            _ => false,
        },
{
    let mut config = config;
    let arweave_missing = config.ARWEAVE_URL.is_none_or_empty();
    let graphql_missing = config.GRAPHQL_URL.is_none_or_empty();
    let checkpoint_missing = config.CHECKPOINT_GRAPHQL_URL.is_none_or_empty();
    if !arweave_missing && !graphql_missing && !checkpoint_missing {
        return Ok(config);
    }
    if config.GATEWAY_URL.is_none_or_empty() {
        if arweave_missing && graphql_missing {
            return Err(schema_error(URLS_BOTH_NEED_GATEWAY));
        }
        if arweave_missing {
            return Err(schema_error(ARWEAVE_URL_NEEDS_GATEWAY));
        }
        if graphql_missing {
            return Err(schema_error(GRAPHQL_URL_NEEDS_GATEWAY));
        }
    }
    let ghost before = config@;
    if arweave_missing {
        config.ARWEAVE_URL = config.GATEWAY_URL.clone();
    }
    if graphql_missing {
        let mut url = match &config.GATEWAY_URL {
            Some(g) => g.clone(),
            None => String::new(),
        };
        url.append(GRAPHQL_PATH);
        config.GRAPHQL_URL = Some(url);
    }
    if checkpoint_missing {
        config.CHECKPOINT_GRAPHQL_URL = config.GRAPHQL_URL.clone();
    }
    assert(spec_preprocess_urls(before) == Ok::<StartConfigEnvView, Seq<char>>(config@));
    Ok(config)
}

/// After a successful preprocessing every URL setting (ARWEAVE_URL,
/// GRAPHQL_URL, CHECKPOINT_GRAPHQL_URL) is present and not empty.
pub proof fn preprocessed_urls_present(c: StartConfigEnvView)
    ensures
        spec_preprocess_urls(c) matches Ok(d) ==> !none_or_empty(d.ARWEAVE_URL) && !none_or_empty(
            d.GRAPHQL_URL,
        ) && !none_or_empty(d.CHECKPOINT_GRAPHQL_URL),
{
    reveal_strlit("/graphql");
}

/// Preprocessing preprocessed settings changes nothing.
pub proof fn preprocess_urls_idempotent(c: StartConfigEnvView)
    ensures
        spec_preprocess_urls(c) matches Ok(d) ==> spec_preprocess_urls(d) == Ok::<
            StartConfigEnvView,
            Seq<char>,
        >(d),
{
    preprocessed_urls_present(c);
}

/// Preprocessing only fills in what is missing: a URL setting that is
/// present and not empty is left as given.
pub proof fn preprocess_urls_keeps_given_urls(c: StartConfigEnvView)
    ensures
        spec_preprocess_urls(c) matches Ok(d) ==> {
            &&& !none_or_empty(c.ARWEAVE_URL) ==> d.ARWEAVE_URL == c.ARWEAVE_URL
            &&& !none_or_empty(c.GRAPHQL_URL) ==> d.GRAPHQL_URL == c.GRAPHQL_URL
            &&& !none_or_empty(c.CHECKPOINT_GRAPHQL_URL) ==> d.CHECKPOINT_GRAPHQL_URL
                == c.CHECKPOINT_GRAPHQL_URL
            &&& d.GATEWAY_URL == c.GATEWAY_URL
        },
{
}

/// The defaults preprocessing fills in: a missing ARWEAVE_URL becomes the
/// gateway URL, a missing GRAPHQL_URL the gateway URL followed by
/// `/graphql`, and a missing CHECKPOINT_GRAPHQL_URL the resulting
/// GRAPHQL_URL.
pub proof fn preprocess_urls_fills_defaults(c: StartConfigEnvView)
    ensures
        spec_preprocess_urls(c) matches Ok(d) ==> {
            &&& none_or_empty(c.ARWEAVE_URL) ==> d.ARWEAVE_URL == c.GATEWAY_URL
            &&& none_or_empty(c.GRAPHQL_URL) ==> (c.GATEWAY_URL matches Some(g) && d.GRAPHQL_URL
                == Some(g + GRAPHQL_PATH@))
            &&& none_or_empty(c.CHECKPOINT_GRAPHQL_URL) ==> d.CHECKPOINT_GRAPHQL_URL
                == d.GRAPHQL_URL
        },
{
}

/// Preprocessing refuses exactly where a missing ARWEAVE_URL or GRAPHQL_URL
/// has no gateway URL to default from.
pub proof fn preprocess_urls_refuses_without_gateway(c: StartConfigEnvView)
    ensures
        spec_preprocess_urls(c) is Err <==> (none_or_empty(c.GATEWAY_URL) && (none_or_empty(
            c.ARWEAVE_URL,
        ) || none_or_empty(c.GRAPHQL_URL))),
{
}

/// Where the wallet comes from.
pub enum WalletSource {
    /// WALLET holds the wallet itself.
    Inline,
    /// The wallet is to be read from the file at this path (WALLET_FILE).
    File(String),
}

/// Decides where the wallet comes from: WALLET where only it is set, the file
/// named by WALLET_FILE where only that is set, and a schema error where both
/// or neither are set.
pub fn wallet_source(config: &StartConfigEnv) -> (r: Result<WalletSource, CuErrors>)
    ensures
        ({
            let w = none_or_empty(config@.WALLET);
            let f = none_or_empty(config@.WALLET_FILE);
            &&& (!w && f) ==> (r matches Ok(WalletSource::Inline))
            &&& (w && f) ==> (r matches Err(CuErrors::SchemaValidation(e)) && e.message@
                == WALLET_REQUIRED@)
            &&& (!w && !f) ==> (r matches Err(CuErrors::SchemaValidation(e)) && e.message@
                == WALLET_DEFINED_TWICE@)
            &&& (w && !f) ==> (r matches Ok(WalletSource::File(p)) && Some(p@)
                == config@.WALLET_FILE)
        }),
{
    let w = config.WALLET.is_none_or_empty();
    let f = config.WALLET_FILE.is_none_or_empty();
    if !w && f {
        return Ok(WalletSource::Inline);
    }
    if w && f {
        return Err(schema_error(WALLET_REQUIRED));
    }
    if !w && !f {
        return Err(schema_error(WALLET_DEFINED_TWICE));
    }
    match &config.WALLET_FILE {
        Some(p) => Ok(WalletSource::File(p.clone())),
        None => Err(schema_error(WALLET_REQUIRED)),
    }
}

/// The parts of an evaluation that place it in the evaluation order.
pub struct PartialEvaluationSchema {
    pub timestamp: i64,
    pub cron: Option<String>,
}

/// Whether an optional cron names a cron: it is present and not empty.
pub open spec fn names_cron(c: Option<Seq<char>>) -> bool {
    match c {
        Some(s) => s.len() > 0,
        None => false,
    }
}

/// Whether the evaluation at timestamp `t2` with cron `c2` comes after the
/// one at `t1` with cron `c1`: it has a later timestamp; at the same
/// timestamp, a cron evaluation comes after one without cron, and cron
/// evaluations come in the order of their cron names.
pub open spec fn comes_after(
    t1: i64,
    c1: Option<Seq<char>>,
    t2: i64,
    c2: Option<Seq<char>>,
) -> bool {
    if t1 == t2 {
        if names_cron(c2) && !names_cron(c1) {
            true
        } else if names_cron(c2) && names_cron(c1) {
            seq_lt(c1->0, c2->0)
        } else {
            false
        }
    } else {
        t2 > t1
    }
}

fn names_cron_exec(c: &Option<String>) -> (b: bool)
    ensures
        b == names_cron(c.deep_view()),
{
    match c {
        Some(s) => s.as_str().unicode_len() > 0,
        None => false,
    }
}

fn comes_after_exec(t1: i64, c1: &Option<String>, t2: i64, c2: &Option<String>) -> (b: bool)
    ensures
        b == comes_after(t1, c1.deep_view(), t2, c2.deep_view()),
{
    if t1 == t2 {
        let n1 = names_cron_exec(c1);
        let n2 = names_cron_exec(c2);
        if n2 && !n1 {
            true
        } else if n2 && n1 {
            match (c1, c2) {
                (Some(a), Some(b)) => str_lt(a.as_str(), b.as_str()),
                _ => false,
            }
        } else {
            false
        }
    } else {
        t2 > t1
    }
}

/// Whether `eval2` comes after `eval1` in the evaluation order.
pub fn is_later_then(eval1: PartialEvaluationSchema, eval2: PartialEvaluationSchema) -> (b: bool)
    ensures
        b == comes_after(
            eval1.timestamp,
            eval1.cron.deep_view(),
            eval2.timestamp,
            eval2.cron.deep_view(),
        ),
{
    comes_after_exec(eval1.timestamp, &eval1.cron, eval2.timestamp, &eval2.cron)
}

/// Whether `eval2` comes before `eval1` in the evaluation order, that is,
/// whether `eval1` comes after `eval2`.
pub fn is_earlier_than(eval1: PartialEvaluationSchema, eval2: PartialEvaluationSchema) -> (b: bool)
    ensures
        b == comes_after(
            eval2.timestamp,
            eval2.cron.deep_view(),
            eval1.timestamp,
            eval1.cron.deep_view(),
        ),
{
    comes_after_exec(eval2.timestamp, &eval2.cron, eval1.timestamp, &eval1.cron)
}

/// Whether the two have the same timestamp and the same cron.
pub fn is_equal_to(eval1: PartialEvaluationSchema, eval2: PartialEvaluationSchema) -> (b: bool)
    ensures
        b == (eval1.timestamp == eval2.timestamp && eval1.cron.deep_view()
            == eval2.cron.deep_view()),
{
    if eval1.timestamp != eval2.timestamp {
        return false;
    }
    match (&eval1.cron, &eval2.cron) {
        (Some(a), Some(b)) => str_eq(a.as_str(), b.as_str()),
        (None, None) => true,
        _ => false,
    }
}

/// No evaluation comes after itself.
pub proof fn evaluation_order_irreflexive(t: i64, c: Option<Seq<char>>)
    ensures
        !comes_after(t, c, t, c),
{
    if names_cron(c) {
        lemma_seq_lt_irreflexive(c->0);
    }
}

/// Of two evaluations, at most one comes after the other.
pub proof fn evaluation_order_asymmetric(
    t1: i64,
    c1: Option<Seq<char>>,
    t2: i64,
    c2: Option<Seq<char>>,
)
    ensures
        !(comes_after(t1, c1, t2, c2) && comes_after(t2, c2, t1, c1)),
{
    if names_cron(c1) && names_cron(c2) {
        lemma_seq_lt_asymmetric(c1->0, c2->0);
    }
}

/// The evaluation order is transitive.
pub proof fn evaluation_order_transitive(
    t1: i64,
    c1: Option<Seq<char>>,
    t2: i64,
    c2: Option<Seq<char>>,
    t3: i64,
    c3: Option<Seq<char>>,
)
    requires
        comes_after(t1, c1, t2, c2),
        comes_after(t2, c2, t3, c3),
    ensures
        comes_after(t1, c1, t3, c3),
{
    if t1 == t2 && t2 == t3 && names_cron(c1) && names_cron(c2) && names_cron(c3) {
        lemma_seq_lt_transitive(c1->0, c2->0, c3->0);
    }
}


} // verus!
