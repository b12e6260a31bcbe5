use vstd::prelude::*;

verus! {

/// Process-wide settings, including the limits that each script run reads.
#[derive(Debug, Clone)]
pub struct Config {
    pub cf_api_token: String,
    pub cf_account_id: String,
    pub db_path: String,
    pub cache_size: usize,
    pub cache_ttl: u64,
    pub log_level: String,
    pub max_scripts: usize,
    pub script_memory_mb: usize,
    pub script_timeout_ms: u64,
    pub script_concurrency: usize,
    /// Proxy address, such as `http://127.0.0.1:7890` or `socks5://127.0.0.1:7890`.
    pub proxy_url: Option<String>,
    /// Whether to skip TLS certificate checks behind an intercepting proxy.
    pub proxy_no_verify: bool,
}

pub const DEFAULT_CACHE_SIZE: usize = 1000;

pub const DEFAULT_CACHE_TTL: u64 = 300;

pub const DEFAULT_MAX_SCRIPTS: usize = 10;

pub const DEFAULT_SCRIPT_MEMORY_MB: usize = 10;

pub const DEFAULT_SCRIPT_TIMEOUT_MS: u64 = 5000;

pub const DEFAULT_SCRIPT_CONCURRENCY: usize = 3;

pub fn default_db_path() -> (r: String)
    ensures
        r@ == "qtunnel.db"@,
{
    String::from_str("qtunnel.db")
}

pub fn default_cache_size() -> (r: usize)
    ensures
        r == DEFAULT_CACHE_SIZE,
{
    DEFAULT_CACHE_SIZE
}

pub fn default_cache_ttl() -> (r: u64)
    ensures
        r == DEFAULT_CACHE_TTL,
{
    DEFAULT_CACHE_TTL
}

pub fn default_log_level() -> (r: String)
    ensures
        r@ == "info"@,
{
    String::from_str("info")
}

pub fn default_max_scripts() -> (r: usize)
    ensures
        r == DEFAULT_MAX_SCRIPTS,
{
    DEFAULT_MAX_SCRIPTS
}

pub fn default_script_memory_mb() -> (r: usize)
    ensures
        r == DEFAULT_SCRIPT_MEMORY_MB,
{
    DEFAULT_SCRIPT_MEMORY_MB
}

pub fn default_script_timeout_ms() -> (r: u64)
    ensures
        r == DEFAULT_SCRIPT_TIMEOUT_MS,
{
    DEFAULT_SCRIPT_TIMEOUT_MS
}

pub fn default_script_concurrency() -> (r: usize)
    ensures
        r == DEFAULT_SCRIPT_CONCURRENCY,
{
    DEFAULT_SCRIPT_CONCURRENCY
}

impl Config {
    /// The settings a first start uses: no credentials, no proxy, and the
    /// default sizes and limits.
    pub open spec fn is_default(&self) -> bool {
        &&& self.cf_api_token@.len() == 0
        &&& self.cf_account_id@.len() == 0
        &&& self.db_path@ == "qtunnel.db"@
        &&& self.cache_size == DEFAULT_CACHE_SIZE
        &&& self.cache_ttl == DEFAULT_CACHE_TTL
        &&& self.log_level@ == "info"@
        &&& self.max_scripts == DEFAULT_MAX_SCRIPTS
        &&& self.script_memory_mb == DEFAULT_SCRIPT_MEMORY_MB
        &&& self.script_timeout_ms == DEFAULT_SCRIPT_TIMEOUT_MS
        &&& self.script_concurrency == DEFAULT_SCRIPT_CONCURRENCY
        &&& self.proxy_url is None
        &&& !self.proxy_no_verify
    }

    /// The path of the per-user settings file under the home directory `home`.
    pub fn user_config_path(home: &str) -> (r: String)
        ensures
            r@ == home@ + "/.config/qtunnel/config.json"@,
    {
        String::from_str(home).concat("/.config/qtunnel/config.json")
    }

    /// Picks the settings by priority: the per-user file, then the
    /// application data file, then the environment, then the defaults.
    /// Each argument is `None` where that source is absent or unreadable.
    pub fn load_with_priority(
        user_file: Option<Config>,
        app_data_file: Option<Config>,
        environment: Option<Config>,
    ) -> (r: Config)
        ensures
            match (user_file, app_data_file, environment) {
                (Some(c), _, _) => r == c,
                (None, Some(c), _) => r == c,
                (None, None, Some(c)) => r == c,
                (None, None, None) => r.is_default(),
            },
    {
        match user_file {
            Some(c) => c,
            None => match app_data_file {
                Some(c) => c,
                None => match environment {
                    Some(c) => c,
                    None => Config::default(),
                },
            },
        }
    }
}

impl Default for Config {
    fn default() -> (r: Config)
        ensures
            r.is_default(),
    {
        Config {
            cf_api_token: String::new(),
            cf_account_id: String::new(),
            db_path: default_db_path(),
            cache_size: default_cache_size(),
            cache_ttl: default_cache_ttl(),
            log_level: default_log_level(),
            max_scripts: default_max_scripts(),
            script_memory_mb: default_script_memory_mb(),
            script_timeout_ms: default_script_timeout_ms(),
            script_concurrency: default_script_concurrency(),
            proxy_url: None,
            proxy_no_verify: false,
        }
    }
}

/// The characters that Unicode calls white space, as `char::is_whitespace` does.
pub open spec fn is_space(c: char) -> bool {
    let u = c as u32;
    ||| 0x09 <= u <= 0x0d
    ||| u == 0x20
    ||| u == 0x85
    ||| u == 0xa0
    ||| u == 0x1680
    ||| 0x2000 <= u <= 0x200a
    ||| u == 0x2028
    ||| u == 0x2029
    ||| u == 0x202f
    ||| u == 0x205f
    ||| u == 0x3000
}

fn space(c: char) -> (r: bool)
    ensures
        r == is_space(c),
{
    let u = c as u32;
    (0x09 <= u && u <= 0x0d) || u == 0x20 || u == 0x85 || u == 0xa0 || u == 0x1680 || (0x2000
        <= u && u <= 0x200a) || u == 0x2028 || u == 0x2029 || u == 0x202f || u == 0x205f || u
        == 0x3000
}

/// `s[a..b]` is `s` without its leading and trailing white space.
pub open spec fn trim_bounds(s: Seq<char>, a: int, b: int) -> bool {
    &&& 0 <= a <= b <= s.len()
    &&& forall|i: int| 0 <= i < a ==> is_space(#[trigger] s[i])
    &&& forall|i: int| b <= i < s.len() ==> is_space(#[trigger] s[i])
    &&& a < b ==> !is_space(s[a]) && !is_space(s[b - 1])
}

/// `s` without leading and trailing white space.
pub open spec fn trimmed(s: Seq<char>) -> Seq<char> {
    let (a, b) = choose|a: int, b: int| trim_bounds(s, a, b);
    s.subrange(a, b)
}

proof fn lemma_trim_unique(s: Seq<char>, a: int, b: int)
    requires
        trim_bounds(s, a, b),
    ensures
        trimmed(s) == s.subrange(a, b),
{
    let (c, d) = choose|c: int, d: int| trim_bounds(s, c, d);
    assert(trim_bounds(s, c, d));
    if a < b {
        if c < a {
            assert(is_space(s[c]));
        }
        if a < c {
            assert(is_space(s[a]));
        }
        if d < b {
            assert(is_space(s[b - 1]));
        }
        if b < d {
            assert(is_space(s[d - 1]));
        }
    } else if c < d {
        if c < a {
            assert(is_space(s[c]));
        } else {
            assert(is_space(s[c]));
        }
    }
    assert(s.subrange(a, b) =~= s.subrange(c, d));
}

/// The text without leading and trailing white space.
pub fn trim_text(s: &str) -> (r: String)
    ensures
        r@ == trimmed(s@),
{
    let n = s.unicode_len();
    let mut a: usize = 0;
    while a < n && space(s.get_char(a))
        invariant
            n == s@.len(),
            a <= n,
            forall|i: int| 0 <= i < a ==> is_space(#[trigger] s@[i]),
        decreases n - a,
    {
        a = a + 1;
    }
    let mut b: usize = n;
    while b > a && space(s.get_char(b - 1))
        invariant
            n == s@.len(),
            a <= b <= n,
            forall|i: int| b <= i < n ==> is_space(#[trigger] s@[i]),
            a < n ==> !is_space(s@[a as int]),
        decreases b,
    {
        b = b - 1;
    }
    proof {
        lemma_trim_unique(s@, a as int, b as int);
    }
    String::from_str(s.substring_char(a, b))
}

/// `i` is the first `=` in `s`.
pub open spec fn is_first_equals(s: Seq<char>, i: int) -> bool {
    &&& 0 <= i < s.len()
    &&& s[i] == '='
    &&& forall|j: int| 0 <= j < i ==> s[j] != '='
}

/// What one line of an environment file assigns: nothing for a blank line,
/// a comment or a line without `=`; otherwise the trimmed text before the
/// first `=` and the trimmed text after it.
pub open spec fn assignment_of(line: Seq<char>) -> Option<(Seq<char>, Seq<char>)> {
    let t = trimmed(line);
    if t.len() == 0 || t[0] == '#' {
        None
    } else if exists|i: int| is_first_equals(t, i) {
        let i = choose|i: int| is_first_equals(t, i);
        Some((trimmed(t.subrange(0, i)), trimmed(t.subrange(i + 1, t.len() as int))))
    } else {
        None
    }
}

/// Reads one line of an environment file.
pub fn env_assignment(line: &str) -> (r: Option<(String, String)>)
    ensures
        match (r, assignment_of(line@)) {
            (Some((k, v)), Some((sk, sv))) => k@ == sk && v@ == sv,
            (None, None) => true,
            _ => false,
        },
{
    let t = trim_text(line);
    let text = t.as_str();
    let n = text.unicode_len();
    if n == 0 {
        return None;
    }
    if text.get_char(0) == '#' {
        return None;
    }
    let mut i: usize = 0;
    while i < n
        invariant
            n == text@.len(),
            text@ == trimmed(line@),
            n > 0,
            text@[0] != '#',
            i <= n,
            forall|j: int| 0 <= j < i ==> text@[j] != '=',
        decreases n - i,
    {
        if text.get_char(i) == '=' {
            proof {
                assert(is_first_equals(text@, i as int));
                let k = choose|k: int| is_first_equals(text@, k);
                if k < i {
                    assert(text@[k] != '=');
                } else if k > i {
                    assert(text@[i as int] != '=');
                }
            }
            let key = trim_text(text.substring_char(0, i));
            let value = trim_text(text.substring_char(i + 1, n));
            return Some((key, value));
        }
        i = i + 1;
    }
    proof {
        if exists|k: int| is_first_equals(text@, k) {
            let k = choose|k: int| is_first_equals(text@, k);
            assert(text@[k] == '=');
        }
    }
    None
}

pub open spec fn is_digit(c: char) -> bool {
    '0' <= c <= '9'
}

/// The value of a run of decimal digits.
pub open spec fn digits_value(s: Seq<char>) -> nat
    decreases s.len(),
{
    if s.len() == 0 {
        0
    } else {
        digits_value(s.drop_last()) * 10 + (s.last() as u32 - '0' as u32) as nat
    }
}

/// The digits of an unsigned integer text: the text without one leading `+`.
pub open spec fn unsigned_digits(s: Seq<char>) -> Seq<char> {
    if s.len() > 0 && s[0] == '+' {
        s.drop_first()
    } else {
        s
    }
}

pub open spec fn all_digits(d: Seq<char>) -> bool {
    forall|i: int| 0 <= i < d.len() ==> is_digit(#[trigger] d[i])
}

/// The number that an unsigned integer text denotes: an optional `+`, then
/// one or more decimal digits.
pub open spec fn number_of(s: Seq<char>) -> Option<nat> {
    if unsigned_digits(s).len() > 0 && all_digits(unsigned_digits(s)) {
        Some(digits_value(unsigned_digits(s)))
    } else {
        None
    }
}

proof fn lemma_digits_grow(s: Seq<char>, k: int)
    requires
        0 <= k <= s.len(),
        forall|i: int| 0 <= i < s.len() ==> is_digit(#[trigger] s[i]),
    ensures
        digits_value(s.subrange(0, k)) <= digits_value(s),
    decreases s.len() - k,
{
    if k < s.len() {
        let next = s.subrange(0, k + 1);
        assert(next.drop_last() =~= s.subrange(0, k));
        lemma_digits_grow(s, k + 1);
    } else {
        assert(s.subrange(0, k) =~= s);
    }
}

/// Reads an unsigned integer as `str::parse::<u64>` does: `None` for text
/// that is not a number and for numbers too large for `u64`.
pub fn parse_u64(s: &str) -> (r: Option<u64>)
    ensures
        r == match number_of(s@) {
            Some(v) => if v <= u64::MAX {
                Some(v as u64)
            } else {
                None
            },
            None => None,
        },
{
    let n = s.unicode_len();
    let start: usize = if n > 0 && s.get_char(0) == '+' {
        1
    } else {
        0
    };
    let ghost d = s@.subrange(start as int, n as int);
    assert(d =~= unsigned_digits(s@));
    if start == n {
        return None;
    }
    let mut acc: u64 = 0;
    let mut i: usize = start;
    while i < n
        invariant
            n == s@.len(),
            start <= i <= n,
            start < n,
            d == s@.subrange(start as int, n as int),
            d == unsigned_digits(s@),
            forall|j: int| 0 <= j < i - start ==> is_digit(#[trigger] d[j]),
            acc == digits_value(d.subrange(0, i - start)),
        decreases n - i,
    {
        let c = s.get_char(i);
        assert(d[i - start] == c);
        if !('0' <= c && c <= '9') {
            proof {
                assert(!is_digit(d[i - start]));
                assert(number_of(s@) is None);
            }
            return None;
        }
        let v = (c as u32 - '0' as u32) as u64;
        let ghost prefix = d.subrange(0, i - start + 1);
        assert(prefix.drop_last() =~= d.subrange(0, i - start));
        assert(prefix.last() == c);
        assert(digits_value(prefix) == acc * 10 + v);
        if acc > (u64::MAX - v) / 10 {
            proof {
                assert(acc * 10 + v > u64::MAX) by (nonlinear_arith)
                    requires
                        acc > (u64::MAX - v) / 10,
                        v <= 9,
                ;
                if all_digits(d) {
                    lemma_digits_grow(d, i - start + 1);
                    assert(digits_value(d) > u64::MAX);
                    assert(number_of(s@) == Some(digits_value(d)));
                } else {
                    assert(number_of(s@) is None);
                }
            }
            return None;
        }
        acc = acc * 10 + v;
        i = i + 1;
    }
    assert(d.subrange(0, i - start) =~= d);
    Some(acc)
}

/// Settings taken from environment values, or `None` where neither a token
/// nor an account id is set. A missing or unreadable number keeps its
/// default, as do the script limits; other missing values take their
/// defaults too.
pub fn config_from_environment(
    token: String,
    account_id: String,
    db_path: Option<String>,
    cache_size: Option<String>,
    cache_ttl: Option<String>,
    log_level: Option<String>,
    proxy_url: Option<String>,
) -> (r: Option<Config>)
    ensures
        token@.len() == 0 && account_id@.len() == 0 ==> r is None,
        token@.len() > 0 || account_id@.len() > 0 ==> (r matches Some(c) && {
            &&& c.cf_api_token@ == token@
            &&& c.cf_account_id@ == account_id@
            &&& c.db_path@ == match db_path {
                Some(p) => p@,
                None => "qtunnel.db"@,
            }
            &&& c.cache_size as int == match cache_size {
                Some(t) => match number_of(t@) {
                    Some(v) => if v <= usize::MAX {
                        v as int
                    } else {
                        DEFAULT_CACHE_SIZE as int
                    },
                    None => DEFAULT_CACHE_SIZE as int,
                },
                None => DEFAULT_CACHE_SIZE as int,
            }
            &&& c.cache_ttl as int == match cache_ttl {
                Some(t) => match number_of(t@) {
                    Some(v) => if v <= u64::MAX {
                        v as int
                    } else {
                        DEFAULT_CACHE_TTL as int
                    },
                    None => DEFAULT_CACHE_TTL as int,
                },
                None => DEFAULT_CACHE_TTL as int,
            }
            &&& c.log_level@ == match log_level {
                Some(l) => l@,
                None => "info"@,
            }
            &&& c.max_scripts == DEFAULT_MAX_SCRIPTS
            &&& c.script_memory_mb == DEFAULT_SCRIPT_MEMORY_MB
            &&& c.script_timeout_ms == DEFAULT_SCRIPT_TIMEOUT_MS
            &&& c.script_concurrency == DEFAULT_SCRIPT_CONCURRENCY
            &&& c.proxy_url == proxy_url
            &&& !c.proxy_no_verify
        }),
{
    if token.as_str().is_empty() && account_id.as_str().is_empty() {
        return None;
    }
    let size = match &cache_size {
        Some(t) => match parse_u64(t.as_str()) {
            Some(v) => if v <= usize::MAX as u64 {
                v as usize
            } else {
                default_cache_size()
            },
            None => default_cache_size(),
        },
        None => default_cache_size(),
    };
    let ttl = match &cache_ttl {
        Some(t) => match parse_u64(t.as_str()) {
            Some(v) => v,
            None => default_cache_ttl(),
        },
        None => default_cache_ttl(),
    };
    Some(
        Config {
            cf_api_token: token,
            cf_account_id: account_id,
            db_path: match db_path {
                Some(p) => p,
                None => default_db_path(),
            },
            cache_size: size,
            cache_ttl: ttl,
            log_level: match log_level {
                Some(l) => l,
                None => default_log_level(),
            },
            max_scripts: default_max_scripts(),
            script_memory_mb: default_script_memory_mb(),
            script_timeout_ms: default_script_timeout_ms(),
            script_concurrency: default_script_concurrency(),
            proxy_url,
            proxy_no_verify: false,
        },
    )
}

/// A proxy address as typed: trimmed, and none where nothing but white
/// space was typed.
pub fn clean_proxy(proxy_url: Option<String>) -> (r: Option<String>)
    ensures
        match proxy_url {
            None => r is None,
            Some(p) => if trimmed(p@).len() == 0 {
                r is None
            } else {
                r matches Some(q) && q@ == trimmed(p@)
            },
        },
{
    match proxy_url {
        None => None,
        Some(p) => {
            let t = trim_text(p.as_str());
            if t.as_str().is_empty() {
                None
            } else {
                Some(t)
            }
        },
    }
}

/// The settings that the settings form saves: what was entered, the
/// defaults for what was left out, and the script limits at their defaults.
pub fn settings_from_form(
    api_token: String,
    account_id: String,
    cache_size: Option<usize>,
    cache_ttl: Option<u64>,
    log_level: Option<String>,
    proxy_url: Option<String>,
    proxy_no_verify: Option<bool>,
) -> (r: Config)
    ensures
        r.cf_api_token@ == api_token@,
        r.cf_account_id@ == account_id@,
        r.db_path@ == "qtunnel.db"@,
        r.cache_size == match cache_size {
            Some(n) => n,
            None => DEFAULT_CACHE_SIZE,
        },
        r.cache_ttl == match cache_ttl {
            Some(n) => n,
            None => DEFAULT_CACHE_TTL,
        },
        r.log_level@ == match log_level {
            Some(l) => l@,
            None => "info"@,
        },
        r.max_scripts == DEFAULT_MAX_SCRIPTS,
        r.script_memory_mb == DEFAULT_SCRIPT_MEMORY_MB,
        r.script_timeout_ms == DEFAULT_SCRIPT_TIMEOUT_MS,
        r.script_concurrency == DEFAULT_SCRIPT_CONCURRENCY,
        match proxy_url {
            None => r.proxy_url is None,
            Some(p) => if trimmed(p@).len() == 0 {
                r.proxy_url is None
            } else {
                r.proxy_url matches Some(q) && q@ == trimmed(p@)
            },
        },
        r.proxy_no_verify == match proxy_no_verify {
            Some(b) => b,
            None => false,
        },
{
    Config {
        cf_api_token: api_token,
        cf_account_id: account_id,
        db_path: default_db_path(),
        cache_size: match cache_size {
            Some(n) => n,
            None => default_cache_size(),
        },
        cache_ttl: match cache_ttl {
            Some(n) => n,
            None => default_cache_ttl(),
        },
        log_level: match log_level {
            Some(l) => l,
            None => default_log_level(),
        },
        max_scripts: default_max_scripts(),
        script_memory_mb: default_script_memory_mb(),
        script_timeout_ms: default_script_timeout_ms(),
        script_concurrency: default_script_concurrency(),
        proxy_url: clean_proxy(proxy_url),
        proxy_no_verify: match proxy_no_verify {
            Some(b) => b,
            None => false,
        },
    }
}

} // verus!
