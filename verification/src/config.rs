//! Application configuration, resolved once at startup from environment
//! values, with safe defaults for every setting.

use crate::text::{owned, text_option};
use vstd::prelude::*;

verus! {

/// The raw environment values the configuration is read from; `None` where a
/// variable is unset (or not valid Unicode).
#[derive(Debug, Clone)]
pub struct EnvVars {
    /// `CLOUD_API_URL`
    pub cloud_api_url: Option<String>,
    /// `APP_LOG_LEVEL`
    pub log_level: Option<String>,
    /// `APP_DB_FILENAME`
    pub db_filename: Option<String>,
    /// `TENANT_ID`
    pub tenant_id: Option<String>,
    /// `DEVICE_TOKEN`
    pub device_token: Option<String>,
    /// `SYNC_INTERVAL_SECS`
    pub sync_interval_secs: Option<String>,
    /// `SYNC_MAX_ATTEMPTS`
    pub sync_max_attempts: Option<String>,
}

/// The resolved configuration.
#[derive(Debug, Clone)]
pub struct AppConfig {
    /// Base URL of the central server (the sync target).
    pub cloud_api_url: String,
    /// Log filter, such as "info" or "debug".
    pub log_level: String,
    /// SQLite file name inside the application data directory.
    pub db_filename: String,
    /// Tenant (project owner) this install belongs to.
    pub tenant_id: String,
    /// Bearer token the server authenticates this device with.
    pub device_token: String,
    /// How often the drain worker wakes to look for due rows (seconds).
    pub sync_interval_secs: u64,
    /// A queue row moves to `failed` after this many failed attempts.
    pub sync_max_attempts: i64,
}

pub open spec fn is_digit(c: char) -> bool {
    '0' <= c && c <= '9'
}

pub open spec fn all_digits(s: Seq<char>) -> bool {
    forall|i: int| 0 <= i < s.len() ==> is_digit(#[trigger] s[i])
}

/// The number a string of decimal digits denotes.
pub open spec fn digits_value(s: Seq<char>) -> nat
    decreases s.len(),
{
    if s.len() == 0 {
        0
    } else {
        digits_value(s.drop_last()) * 10 + ((s.last() as u32) - ('0' as u32)) as nat
    }
}

/// What parsing `s` as a `u64` gives: an optional `+`, then one or more
/// decimal digits whose value fits.
pub open spec fn parse_u64_spec(s: Seq<char>) -> Option<u64> {
    let d = if s.len() > 0 && s[0] == '+' {
        s.drop_first()
    } else {
        s
    };
    if d.len() > 0 && all_digits(d) && digits_value(d) <= u64::MAX {
        Some(digits_value(d) as u64)
    } else {
        None
    }
}

/// What parsing `s` as an `i64` gives: an optional sign, then one or more
/// decimal digits whose signed value fits.
pub open spec fn parse_i64_spec(s: Seq<char>) -> Option<i64> {
    if s.len() > 0 && s[0] == '-' {
        let d = s.drop_first();
        if d.len() > 0 && all_digits(d) && digits_value(d) <= 0x8000_0000_0000_0000 {
            Some((0 - digits_value(d)) as i64)
        } else {
            None
        }
    } else {
        let d = if s.len() > 0 && s[0] == '+' {
            s.drop_first()
        } else {
            s
        };
        if d.len() > 0 && all_digits(d) && digits_value(d) <= i64::MAX {
            Some(digits_value(d) as i64)
        } else {
            None
        }
    }
}

/// An environment value, or the default text when it is unset.
pub open spec fn value_or(v: Option<String>, default: Seq<char>) -> Seq<char> {
    match text_option(v) {
        Some(s) => s,
        None => default,
    }
}

proof fn lemma_digits_prefix(s: Seq<char>, k: int)
    requires
        0 <= k <= s.len(),
        all_digits(s),
    ensures
        digits_value(s.subrange(0, k)) <= digits_value(s),
    decreases s.len() - k,
{
    if k < s.len() {
        lemma_digits_prefix(s, k + 1);
        let p = s.subrange(0, k + 1);
        assert(p.drop_last() =~= s.subrange(0, k));
        assert(is_digit(p.last()));
    } else {
        assert(s.subrange(0, k) =~= s);
    }
}

/// The value of the decimal digits `s[from..]`, or `None` when there are
/// none, one is not a digit, or the value exceeds `limit`.
fn digits_upto(s: &str, from: usize, limit: u64) -> (r: Option<u64>)
    requires
        from <= s@.len(),
        limit >= 9,
    ensures
        ({
            let d = s@.subrange(from as int, s@.len() as int);
            r == if d.len() > 0 && all_digits(d) && digits_value(d) <= limit {
                Some(digits_value(d) as u64)
            } else {
                None::<u64>
            }
        }),
{
    let n = s.unicode_len();
    let ghost d = s@.subrange(from as int, n as int);
    if from == n {
        return None;
    }
    let mut acc: u64 = 0;
    let mut i: usize = from;
    while i < n
        invariant
            n == s@.len(),
            from <= i <= n,
            d == s@.subrange(from as int, n as int),
            all_digits(d.subrange(0, i - from)),
            acc == digits_value(d.subrange(0, i - from)),
            acc <= limit,
            limit >= 9,
        decreases n - i,
    {
        let c = s.get_char(i);
        let ghost p = d.subrange(0, i - from + 1);
        proof {
            assert(p.drop_last() =~= d.subrange(0, i - from));
            assert(p.last() == c);
        }
        if !('0' <= c && c <= '9') {
            proof {
                assert(!is_digit(d[i - from]));
            }
            return None;
        }
        let digit = ((c as u32) - ('0' as u32)) as u64;
        if acc > (limit - digit) / 10 {
            proof {
                assert(all_digits(p));
                assert(digits_value(p) == acc * 10 + digit);
                assert(acc * 10 + digit > limit) by (nonlinear_arith)
                    requires
                        acc > (limit - digit) / 10,
                        digit <= 9,
                        limit >= 9,
                ;
                if all_digits(d) {
                    lemma_digits_prefix(d, i - from + 1);
                }
            }
            return None;
        }
        proof {
            assert(acc * 10 + digit <= limit) by (nonlinear_arith)
                requires
                    acc <= (limit - digit) / 10,
                    digit <= limit,
            ;
        }
        acc = acc * 10 + digit;
        i = i + 1;
        proof {
            assert(all_digits(p));
        }
    }
    proof {
        assert(d.subrange(0, n - from) =~= d);
    }
    Some(acc)
}

/// Parses `s` as a `u64` the way `str::parse::<u64>` does.
pub fn parse_u64(s: &str) -> (r: Option<u64>)
    ensures
        r == parse_u64_spec(s@),
{
    let n = s.unicode_len();
    let from: usize = if n > 0 && s.get_char(0) == '+' {
        1
    } else {
        0
    };
    proof {
        if from == 1 {
            assert(s@.subrange(1, n as int) =~= s@.drop_first());
        } else {
            assert(s@.subrange(0, n as int) =~= s@);
        }
    }
    digits_upto(s, from, u64::MAX)
}

/// Parses `s` as an `i64` the way `str::parse::<i64>` does.
pub fn parse_i64(s: &str) -> (r: Option<i64>)
    ensures
        r == parse_i64_spec(s@),
{
    let n = s.unicode_len();
    if n > 0 && s.get_char(0) == '-' {
        proof {
            assert(s@.subrange(1, n as int) =~= s@.drop_first());
        }
        match digits_upto(s, 1, 0x8000_0000_0000_0000) {
            Some(m) => {
                if m == 0x8000_0000_0000_0000 {
                    Some(i64::MIN)
                } else {
                    let v = m as i64;
                    Some(-v)
                }
            },
            None => None,
        }
    } else {
        let from: usize = if n > 0 && s.get_char(0) == '+' {
            1
        } else {
            0
        };
        proof {
            if from == 1 {
                assert(s@.subrange(1, n as int) =~= s@.drop_first());
            } else {
                assert(s@.subrange(0, n as int) =~= s@);
            }
        }
        match digits_upto(s, from, i64::MAX as u64) {
            Some(m) => Some(m as i64),
            None => None,
        }
    }
}

/// `v`, or `default` when it is unset.
fn or_default(v: Option<String>, default: &str) -> (r: String)
    ensures
        r@ == value_or(v, default@),
{
    match v {
        Some(s) => s,
        None => owned(default),
    }
}

impl AppConfig {
    /// Resolves the configuration from the environment values: each unset
    /// variable takes its default, and a numeric setting that does not parse
    /// takes its default too.
    pub fn from_env(vars: EnvVars) -> (r: Self)
        ensures
            r.cloud_api_url@ == value_or(vars.cloud_api_url, "http://localhost:8080"@),
            r.log_level@ == value_or(vars.log_level, "info"@),
            r.db_filename@ == value_or(vars.db_filename, "ticketing.db"@),
            r.tenant_id@ == value_or(vars.tenant_id, "tenant-default"@),
            r.device_token@ == value_or(vars.device_token, "dev-token"@),
            r.sync_interval_secs == match parse_u64_spec(value_or(vars.sync_interval_secs, "120"@)) {
                Some(v) => v,
                None => 120,
            },
            r.sync_max_attempts == match parse_i64_spec(value_or(vars.sync_max_attempts, "12"@)) {
                Some(v) => v,
                None => 12,
            },
    {
        let interval = or_default(vars.sync_interval_secs, "120");
        let attempts = or_default(vars.sync_max_attempts, "12");
        let sync_interval_secs = match parse_u64(interval.as_str()) {
            Some(v) => v,
            None => 120,
        };
        let sync_max_attempts = match parse_i64(attempts.as_str()) {
            Some(v) => v,
            None => 12,
        };
        AppConfig {
            cloud_api_url: or_default(vars.cloud_api_url, "http://localhost:8080"),
            log_level: or_default(vars.log_level, "info"),
            db_filename: or_default(vars.db_filename, "ticketing.db"),
            tenant_id: or_default(vars.tenant_id, "tenant-default"),
            device_token: or_default(vars.device_token, "dev-token"),
            sync_interval_secs,
            sync_max_attempts,
        }
    }
}

/// With nothing set, the numeric settings take their documented defaults:
/// a two-minute drain interval and twelve attempts before a row fails.
pub proof fn lemma_default_numbers()
    ensures
        parse_u64_spec("120"@) == Some(120u64),
        parse_i64_spec("12"@) == Some(12i64),
{
    reveal_strlit("120");
    reveal_strlit("12");
    let a = "120"@;
    assert(a.len() == 3 && a[0] == '1' && a[1] == '2' && a[2] == '0');
    let a1 = a.drop_last().drop_last();
    let a2 = a.drop_last();
    assert(a1.drop_last() =~= Seq::<char>::empty());
    assert(a1.last() == '1');
    assert(a2.last() == '2');
    assert(a2.drop_last() =~= a1);
    assert(digits_value(Seq::<char>::empty()) == 0);
    assert(('1' as u32) - ('0' as u32) == 1);
    assert(('2' as u32) - ('0' as u32) == 2);
    assert(('0' as u32) - ('0' as u32) == 0);
    assert(digits_value(a1) == 1);
    assert(digits_value(a2) == 12);
    assert(digits_value(a) == 120);
    assert(all_digits(a));
    let b = "12"@;
    assert(b.len() == 2 && b[0] == '1' && b[1] == '2');
    let b1 = b.drop_last();
    assert(b1.drop_last() =~= Seq::<char>::empty());
    assert(b1.last() == '1');
    assert(digits_value(b1) == 1);
    assert(digits_value(b) == 12);
    assert(all_digits(b));
}

} // verus!
