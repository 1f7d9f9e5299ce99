//! Application settings: the defaults a configuration file may leave out, and
//! the environment variables that override what the file says.
use vstd::prelude::*;
use vstd::string::*;

use crate::text::{decimal, digit_char, digit_value, is_ascii_digit};

verus! {

/// Settings of the web dashboard.
#[derive(Debug, Clone)]
pub struct DashboardConfig {
    pub port: u16,
    pub title: String,
    pub default_language: String,
}

/// Settings of the local database.
#[derive(Debug, Clone)]
pub struct DbConfig {
    pub path: String,
    pub max_resource_size_mb: u64,
}

/// Settings of the CKAN crawler.
#[derive(Debug, Clone)]
pub struct CkanConfig {
    pub base_url: String,
    pub max_datasets: u64,
    pub formats: Vec<String>,
    pub crawl_interval_hours: u64,
}

/// Default dashboard port.
pub fn default_port() -> (r: u16)
    ensures
        r == 8080,
{
    8080
}

/// Default dashboard title.
pub fn default_title() -> (r: String)
    ensures
        r@ == "Open Eyes"@,
{
    "Open Eyes".to_owned()
}

/// Default user-interface language.
pub fn default_language() -> (r: String)
    ensures
        r@ == "de"@,
{
    "de".to_owned()
}

/// Default database file.
pub fn default_db_path() -> (r: String)
    ensures
        r@ == "./data/open-eyes.duckdb"@,
{
    "./data/open-eyes.duckdb".to_owned()
}

/// Default largest resource that is downloaded, in MiB.
pub fn default_max_resource_size() -> (r: u64)
    ensures
        r == 100,
{
    100
}

/// Default language-model endpoint.
pub fn default_llm_base_url() -> (r: String)
    ensures
        r@ == "https://api.openai.com/v1"@,
{
    "https://api.openai.com/v1".to_owned()
}

/// Default language model.
pub fn default_llm_model() -> (r: String)
    ensures
        r@ == "gpt-4o-mini"@,
{
    "gpt-4o-mini".to_owned()
}

/// Default completion length limit, in tokens.
pub fn default_max_tokens() -> (r: u32)
    ensures
        r == 4096,
{
    4096
}

/// Default CKAN API endpoint.
pub fn default_ckan_base_url() -> (r: String)
    ensures
        r@ == "https://ckan.govdata.de/api/3/action"@,
{
    "https://ckan.govdata.de/api/3/action".to_owned()
}

/// Default largest number of datasets crawled.
pub fn default_max_datasets() -> (r: u64)
    ensures
        r == 10000,
{
    10000
}

/// Default resource formats that are kept.
pub fn default_formats() -> (r: Vec<String>)
    ensures
        r.deep_view() == seq!["CSV"@, "JSON"@],
{
    let mut r: Vec<String> = Vec::new();
    r.push("CSV".to_owned());
    r.push("JSON".to_owned());
    assert(r.deep_view() =~= seq!["CSV"@, "JSON"@]);
    r
}

/// Default hours between two crawls.
pub fn default_crawl_interval() -> (r: u64)
    ensures
        r == 24,
{
    24
}

impl Default for DashboardConfig {
    fn default() -> (r: DashboardConfig)
        ensures
            r.port == 8080,
            r.title@ == "Open Eyes"@,
            r.default_language@ == "de"@,
    {
        DashboardConfig { port: default_port(), title: default_title(), default_language: default_language() }
    }
}

impl Default for DbConfig {
    fn default() -> (r: DbConfig)
        ensures
            r.path@ == "./data/open-eyes.duckdb"@,
            r.max_resource_size_mb == 100,
    {
        DbConfig { path: default_db_path(), max_resource_size_mb: default_max_resource_size() }
    }
}

impl Default for CkanConfig {
    fn default() -> (r: CkanConfig)
        ensures
            r.base_url@ == "https://ckan.govdata.de/api/3/action"@,
            r.max_datasets == 10000,
            r.formats.deep_view() == seq!["CSV"@, "JSON"@],
            r.crawl_interval_hours == 24,
    {
        CkanConfig {
            base_url: default_ckan_base_url(),
            max_datasets: default_max_datasets(),
            formats: default_formats(),
            crawl_interval_hours: default_crawl_interval(),
        }
    }
}

// ---------------------------------------------------------------------------
// Reading a port number
// ---------------------------------------------------------------------------

/// Whether every character is an ASCII digit.
pub open spec fn all_ascii_digits(d: Seq<char>) -> bool {
    forall|i: int| 0 <= i < d.len() ==> is_ascii_digit(#[trigger] d[i])
}

/// The number a string of ASCII digits denotes.
pub open spec fn digits_value(d: Seq<char>) -> nat
    decreases d.len(),
{
    if d.len() == 0 {
        0
    } else {
        digits_value(d.drop_last()) * 10 + digit_value(d.last())
    }
}

/// What `str::parse::<u16>` accepts: an optional `+`, then one or more ASCII
/// digits denoting a value of at most 65535.
pub open spec fn parse_u16(s: Seq<char>) -> Option<u16> {
    let d = if s.len() > 0 && s[0] == '+' {
        s.drop_first()
    } else {
        s
    };
    if d.len() > 0 && all_ascii_digits(d) && digits_value(d) <= 65535 {
        Some(digits_value(d) as u16)
    } else {
        None
    }
}

/// Reads a port number as `str::parse::<u16>` does.
pub fn parse_port(s: &str) -> (r: Option<u16>)
    ensures
        r == parse_u16(s@),
{
    let n = s.unicode_len();
    let start: usize = if n > 0 && s.get_char(0) == '+' {
        1
    } else {
        0
    };
    let ghost d = if s@.len() > 0 && s@[0] == '+' {
        s@.drop_first()
    } else {
        s@
    };
    assert(d =~= s@.subrange(start as int, n as int));
    if start >= n {
        return None;
    }
    let mut acc: u32 = 0;
    let mut i: usize = start;
    assert(s@.subrange(start as int, start as int) =~= Seq::<char>::empty());
    while i < n
        invariant
            n == s@.len(),
            start <= i <= n,
            d == s@.subrange(start as int, n as int),
            d == (if s@.len() > 0 && s@[0] == '+' {
                s@.drop_first()
            } else {
                s@
            }),
            all_ascii_digits(s@.subrange(start as int, i as int)),
            acc as nat == if digits_value(s@.subrange(start as int, i as int)) < 65536 {
                digits_value(s@.subrange(start as int, i as int))
            } else {
                65536
            },
        decreases n - i,
    {
        let c = s.get_char(i);
        if !('0' <= c && c <= '9') {
            assert(d[i - start] == c);
            assert(!is_ascii_digit(d[i - start]));
            assert(!all_ascii_digits(d));
            assert(parse_u16(s@) is None);
            return None;
        }
        let ghost prev = s@.subrange(start as int, i as int);
        let ghost next = s@.subrange(start as int, i as int + 1);
        assert(next.drop_last() =~= prev);
        assert(next.last() == c);
        let v: u32 = (c as u32) - ('0' as u32);
        if acc >= 65536 {
            acc = 65536;
        } else {
            let t = acc * 10 + v;
            acc = if t >= 65536 {
                65536
            } else {
                t
            };
        }
        assert forall|k: int| 0 <= k < next.len() implies is_ascii_digit(#[trigger] next[k]) by {
            if k < prev.len() {
                assert(next[k] == prev[k]);
            }
        }
        i = i + 1;
    }
    assert(s@.subrange(start as int, n as int) == d);
    if acc >= 65536 {
        None
    } else {
        Some(acc as u16)
    }
}

proof fn lemma_digit_roundtrip(v: nat)
    requires
        v < 10,
    ensures
        is_ascii_digit(digit_char(v)),
        digit_value(digit_char(v)) == v,
{
}

/// `decimal(n)` is a string of ASCII digits that denotes `n`.
pub proof fn lemma_decimal_digits(n: nat)
    ensures
        decimal(n).len() > 0,
        all_ascii_digits(decimal(n)),
        digits_value(decimal(n)) == n,
    decreases n,
{
    if n < 10 {
        lemma_digit_roundtrip(n);
        assert(decimal(n).drop_last() =~= Seq::<char>::empty());
        assert(decimal(n).last() == digit_char(n));
        assert(digits_value(decimal(n).drop_last()) == 0);
        assert(digits_value(decimal(n)) == digits_value(decimal(n).drop_last()) * 10 + digit_value(decimal(n).last()));
    } else {
        lemma_decimal_digits(n / 10);
        lemma_digit_roundtrip(n % 10);
        let d = decimal(n);
        assert(d.drop_last() == decimal(n / 10));
        assert(d.last() == digit_char(n % 10));
        assert(n == (n / 10) * 10 + n % 10) by (nonlinear_arith);
        assert(digits_value(d) == digits_value(decimal(n / 10)) * 10 + digit_value(digit_char(n % 10)));
        assert forall|i: int| 0 <= i < d.len() implies is_ascii_digit(#[trigger] d[i]) by {
            if i < d.len() - 1 {
                assert(d[i] == decimal(n / 10)[i]);
            }
        }
    }
}

/// A port written in decimal reads back as the same port.
pub proof fn lemma_port_roundtrip(p: u16)
    ensures
        parse_u16(decimal(p as nat)) == Some(p),
{
    lemma_decimal_digits(p as nat);
    let d = decimal(p as nat);
    assert(is_ascii_digit(d[0]));
}

// ---------------------------------------------------------------------------
// Environment overrides
// ---------------------------------------------------------------------------

/// The values of the overriding environment variables, `None` where a
/// variable is unset.
#[derive(Debug, Clone)]
pub struct EnvOverrides {
    /// `OPEN_EYES_LLM_API_KEY`
    pub llm_api_key: Option<String>,
    /// `OPEN_EYES_LLM_BASE_URL`
    pub llm_base_url: Option<String>,
    /// `OPEN_EYES_LLM_MODEL`
    pub llm_model: Option<String>,
    /// `OPEN_EYES_DUCKDB_PATH`
    pub db_path: Option<String>,
    /// `OPEN_EYES_PORT`
    pub port: Option<String>,
    /// `OPEN_EYES_CKAN_BASE_URL`
    pub ckan_base_url: Option<String>,
}

/// The value a setting takes: the environment's where it gives one.
pub open spec fn overridden_text(current: Seq<char>, value: Option<String>) -> Seq<char> {
    match value {
        Some(v) => v@,
        None => current,
    }
}

/// The port the dashboard takes: the environment's where it gives one that
/// reads as a port number, the configured one otherwise.
pub open spec fn overridden_port(current: u16, value: Option<String>) -> u16 {
    match value {
        Some(v) => match parse_u16(v@) {
            Some(p) => p,
            None => current,
        },
        None => current,
    }
}

/// Replaces a text setting by the environment's value where one is given.
pub fn override_text(current: &mut String, value: &Option<String>)
    ensures
        final(current)@ == overridden_text(old(current)@, *value),
{
    match value {
        Some(v) => {
            *current = v.clone();
        },
        None => {},
    }
}

/// Applies the overrides of the dashboard, database and crawler settings:
/// the database path, the port (only when it reads as a port number), and
/// the CKAN endpoint. Everything else is left as it was.
pub fn apply_env_overrides(
    env: &EnvOverrides,
    dashboard: &mut DashboardConfig,
    db: &mut DbConfig,
    ckan: &mut CkanConfig,
)
    ensures
        final(db).path@ == overridden_text(old(db).path@, env.db_path),
        final(db).max_resource_size_mb == old(db).max_resource_size_mb,
        final(dashboard).port == overridden_port(old(dashboard).port, env.port),
        final(dashboard).title == old(dashboard).title,
        final(dashboard).default_language == old(dashboard).default_language,
        final(ckan).base_url@ == overridden_text(old(ckan).base_url@, env.ckan_base_url),
        final(ckan).max_datasets == old(ckan).max_datasets,
        final(ckan).formats == old(ckan).formats,
        final(ckan).crawl_interval_hours == old(ckan).crawl_interval_hours,
{
    override_text(&mut db.path, &env.db_path);
    match &env.port {
        Some(v) => {
            match parse_port(v.as_str()) {
                Some(p) => {
                    dashboard.port = p;
                },
                None => {},
            }
        },
        None => {},
    }
    override_text(&mut ckan.base_url, &env.ckan_base_url);
}

/// Overrides are idempotent: applying the same environment to a setting it
/// already decided leaves that setting as it is.
pub proof fn lemma_overrides_idempotent(text: Seq<char>, port: u16, value: Option<String>)
    ensures
        overridden_text(overridden_text(text, value), value) == overridden_text(text, value),
        overridden_port(overridden_port(port, value), value) == overridden_port(port, value),
{
}

} // verus!
