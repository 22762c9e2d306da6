//! Settings: what a process reads from its environment, and how missing or
//! unreadable values are made up for.

use crate::text::chars_of;
use vstd::prelude::*;
use vstd::string::StringExecFns;

verus! {

/// The largest rate limit that a setting can hold.
pub const SETTING_MAX: u64 = 0xffff_ffff;

/// Every character of `s` is a decimal digit.
pub open spec fn all_digits(s: Seq<char>) -> bool {
    forall|i: int| 0 <= i < s.len() ==> '0' <= #[trigger] s[i] <= '9'
}

/// The number that a string of decimal digits denotes.
pub open spec fn digits_value(s: Seq<char>) -> nat
    decreases s.len(),
{
    if s.len() == 0 {
        0
    } else {
        (digits_value(s.drop_last()) * 10 + (s.last() as u32 - '0' as u32)) as nat
    }
}

/// The digits of a number in text: the text itself, without the plus sign it
/// may begin with.
pub open spec fn unsigned_digits(s: Seq<char>) -> Seq<char> {
    if s.len() > 0 && s[0] == '+' {
        s.drop_first()
    } else {
        s
    }
}

/// The number that a text denotes, if it denotes one that is at most `max`:
/// decimal digits, at least one, after an optional plus sign.
pub open spec fn unsigned_of(s: Seq<char>, max: nat) -> Option<nat> {
    let digits = unsigned_digits(s);
    if digits.len() > 0 && all_digits(digits) && digits_value(digits) <= max {
        Some(digits_value(digits))
    } else {
        None
    }
}

proof fn lemma_digits_value_grows(s: Seq<char>, k: int)
    requires
        all_digits(s),
        0 <= k <= s.len(),
    ensures
        digits_value(s.take(k)) <= digits_value(s),
    decreases s.len() - k,
{
    if k < s.len() {
        lemma_digits_value_grows(s, k + 1);
        assert(s.take(k + 1).drop_last() =~= s.take(k));
        assert(s.take(k + 1).last() == s[k]);
    } else {
        assert(s.take(k) =~= s);
    }
}

/// Reads a number of at most `max` from a text; see [`unsigned_of`].
pub fn parse_unsigned(s: &str, max: u64) -> (value: Option<u64>)
    ensures
        match value {
            Some(v) => unsigned_of(s@, max as nat) == Some(v as nat),
            None => unsigned_of(s@, max as nat) is None,
        },
{
    let chars = chars_of(s);
    let start: usize = if chars.len() > 0 && chars[0] == '+' {
        1
    } else {
        0
    };
    let ghost digits = unsigned_digits(s@);
    assert(digits =~= chars@.skip(start as int));
    if chars.len() == start {
        return None;
    }
    let mut value: u64 = 0;
    let mut i: usize = start;
    assert(digits.take(0) =~= Seq::<char>::empty());
    while i < chars.len()
        invariant
            start <= i <= chars@.len(),
            digits == chars@.skip(start as int),
            digits == unsigned_digits(s@),
            all_digits(digits.take(i - start)),
            value == digits_value(digits.take(i - start)),
            value <= max,
        decreases chars@.len() - i,
    {
        let c = chars[i];
        assert(digits[i - start] == c);
        if c < '0' || c > '9' {
            assert(!all_digits(digits));
            return None;
        }
        let d: u64 = (c as u32 - '0' as u32) as u64;
        proof {
            assert(digits.take(i - start + 1).drop_last() =~= digits.take(i - start));
            assert(digits.take(i - start + 1).last() == c);
            assert forall|j: int| 0 <= j < i - start + 1 implies '0' <= #[trigger] digits.take(
                i - start + 1,
            )[j] <= '9' by {
                if j < i - start {
                    assert(digits.take(i - start)[j] == digits[j]);
                }
            }
        }
        if d > max || value > (max - d) / 10 {
            proof {
                if all_digits(digits) {
                    lemma_digits_value_grows(digits, i - start + 1);
                }
            }
            return None;
        }
        value = value * 10 + d;
        i = i + 1;
    }
    assert(digits.take(i - start) =~= digits);
    Some(value)
}

/// The environment variables that the settings are read from, each with its
/// value if it is set.
#[derive(Clone, Debug)]
pub struct EnvValues {
    /// `DATABASE_URL`
    pub database_url: Option<String>,
    /// `HERALD_DATABASE_URL`
    pub herald_database_url: Option<String>,
    /// `REDIS_URL`
    pub redis_url: Option<String>,
    /// `HERALD_REDIS_URL`
    pub herald_redis_url: Option<String>,
    /// `HERALD_ENV`
    pub herald_env: Option<String>,
    /// `HERALD_API_BIND`
    pub herald_api_bind: Option<String>,
    /// `HERALD_WORKER_CONCURRENCY`
    pub herald_worker_concurrency: Option<String>,
    /// `HERALD_HMAC_SECRET`
    pub herald_hmac_secret: Option<String>,
    /// `HMAC_SECRET`
    pub hmac_secret: Option<String>,
    /// `HERALD_RATE_LIMIT_FREE`
    pub herald_rate_limit_free: Option<String>,
    /// `HERALD_RATE_LIMIT_PRO`
    pub herald_rate_limit_pro: Option<String>,
    /// `HERALD_RATE_LIMIT_ENT`
    pub herald_rate_limit_ent: Option<String>,
}

/// The view of an [`EnvValues`].
pub struct EnvValuesView {
    pub database_url: Option<Seq<char>>,
    pub herald_database_url: Option<Seq<char>>,
    pub redis_url: Option<Seq<char>>,
    pub herald_redis_url: Option<Seq<char>>,
    pub herald_env: Option<Seq<char>>,
    pub herald_api_bind: Option<Seq<char>>,
    pub herald_worker_concurrency: Option<Seq<char>>,
    pub herald_hmac_secret: Option<Seq<char>>,
    pub hmac_secret: Option<Seq<char>>,
    pub herald_rate_limit_free: Option<Seq<char>>,
    pub herald_rate_limit_pro: Option<Seq<char>>,
    pub herald_rate_limit_ent: Option<Seq<char>>,
}

impl View for EnvValues {
    type V = EnvValuesView;

    open spec fn view(&self) -> EnvValuesView {
        EnvValuesView {
            database_url: self.database_url.deep_view(),
            herald_database_url: self.herald_database_url.deep_view(),
            redis_url: self.redis_url.deep_view(),
            herald_redis_url: self.herald_redis_url.deep_view(),
            herald_env: self.herald_env.deep_view(),
            herald_api_bind: self.herald_api_bind.deep_view(),
            herald_worker_concurrency: self.herald_worker_concurrency.deep_view(),
            herald_hmac_secret: self.herald_hmac_secret.deep_view(),
            hmac_secret: self.hmac_secret.deep_view(),
            herald_rate_limit_free: self.herald_rate_limit_free.deep_view(),
            herald_rate_limit_pro: self.herald_rate_limit_pro.deep_view(),
            herald_rate_limit_ent: self.herald_rate_limit_ent.deep_view(),
        }
    }
}

/// The settings of a process.
#[derive(Clone, Debug)]
pub struct Settings {
    pub database_url: String,
    pub redis_url: String,
    /// The deployment environment label.
    pub herald_env: String,
    pub api_bind: String,
    pub worker_concurrency: usize,
    pub hmac_secret: String,
    /// The request ceiling of the free tier.
    pub rate_limit_free: u32,
    pub rate_limit_pro: u32,
    pub rate_limit_ent: u32,
}

/// The view of a [`Settings`].
pub struct SettingsView {
    pub database_url: Seq<char>,
    pub redis_url: Seq<char>,
    pub herald_env: Seq<char>,
    pub api_bind: Seq<char>,
    pub worker_concurrency: usize,
    pub hmac_secret: Seq<char>,
    pub rate_limit_free: u32,
    pub rate_limit_pro: u32,
    pub rate_limit_ent: u32,
}

impl View for Settings {
    type V = SettingsView;

    open spec fn view(&self) -> SettingsView {
        SettingsView {
            database_url: self.database_url@,
            redis_url: self.redis_url@,
            herald_env: self.herald_env@,
            api_bind: self.api_bind@,
            worker_concurrency: self.worker_concurrency,
            hmac_secret: self.hmac_secret@,
            rate_limit_free: self.rate_limit_free,
            rate_limit_pro: self.rate_limit_pro,
            rate_limit_ent: self.rate_limit_ent,
        }
    }
}

/// A variable that must be set is not, and neither is the one that may
/// stand in for it.
#[derive(Clone, Copy, Debug, PartialEq, Eq, Structural)]
pub enum ConfigError {
    /// Neither `DATABASE_URL` nor `HERALD_DATABASE_URL` is set.
    DatabaseUrlMissing,
    /// Neither `REDIS_URL` nor `HERALD_REDIS_URL` is set.
    RedisUrlMissing,
    /// Neither `HERALD_HMAC_SECRET` nor `HMAC_SECRET` is set.
    HmacSecretMissing,
}

/// The first of two values that is set.
pub open spec fn first_set(a: Option<Seq<char>>, b: Option<Seq<char>>) -> Option<Seq<char>> {
    match a {
        Some(_) => a,
        None => b,
    }
}

/// A value, or `default` where it is not set.
pub open spec fn or_text(a: Option<Seq<char>>, default: Seq<char>) -> Seq<char> {
    match a {
        Some(v) => v,
        None => default,
    }
}

/// The number that a value denotes, or `default` where the value is not set
/// or denotes no number up to `max`.
pub open spec fn or_number(a: Option<Seq<char>>, max: nat, default: nat) -> nat {
    match a {
        Some(v) => match unsigned_of(v, max) {
            Some(n) => n,
            None => default,
        },
        None => default,
    }
}

/// Which required variable is missing, if one is: the database URL is looked
/// for first, then the Redis URL, then the HMAC secret.
pub open spec fn missing(env: EnvValuesView) -> Option<ConfigError> {
    if first_set(env.database_url, env.herald_database_url) is None {
        Some(ConfigError::DatabaseUrlMissing)
    } else if first_set(env.redis_url, env.herald_redis_url) is None {
        Some(ConfigError::RedisUrlMissing)
    } else if first_set(env.herald_hmac_secret, env.hmac_secret) is None {
        Some(ConfigError::HmacSecretMissing)
    } else {
        None
    }
}

/// The settings that an environment gives: each required value from its
/// variable or the one that stands in for it, each optional value from its
/// variable or its default.
pub open spec fn settings_of(env: EnvValuesView) -> SettingsView {
    SettingsView {
        database_url: first_set(env.database_url, env.herald_database_url)->0,
        redis_url: first_set(env.redis_url, env.herald_redis_url)->0,
        herald_env: or_text(env.herald_env, "dev"@),
        api_bind: or_text(env.herald_api_bind, "0.0.0.0:3000"@),
        worker_concurrency: or_number(env.herald_worker_concurrency, usize::MAX as nat, 4)
            as usize,
        hmac_secret: first_set(env.herald_hmac_secret, env.hmac_secret)->0,
        rate_limit_free: or_number(env.herald_rate_limit_free, SETTING_MAX as nat, 60) as u32,
        rate_limit_pro: or_number(env.herald_rate_limit_pro, SETTING_MAX as nat, 600) as u32,
        rate_limit_ent: or_number(env.herald_rate_limit_ent, SETTING_MAX as nat, 6000) as u32,
    }
}

fn pick(a: Option<String>, b: Option<String>) -> (out: Option<String>)
    ensures
        out.deep_view() == first_set(a.deep_view(), b.deep_view()),
{
    match a {
        Some(v) => Some(v),
        None => b,
    }
}

fn text_or(a: Option<String>, default: &str) -> (out: String)
    ensures
        out@ == or_text(a.deep_view(), default@),
{
    match a {
        Some(v) => v,
        None => String::from_str(default),
    }
}

fn number_or(a: &Option<String>, default: u32) -> (out: u32)
    ensures
        out == or_number(a.deep_view(), SETTING_MAX as nat, default as nat),
{
    match a {
        Some(v) => match parse_unsigned(v.as_str(), SETTING_MAX) {
            Some(n) => n as u32,
            None => default,
        },
        None => default,
    }
}

fn size_or(a: &Option<String>, default: usize) -> (out: usize)
    ensures
        out == or_number(a.deep_view(), usize::MAX as nat, default as nat),
{
    match a {
        Some(v) => match parse_unsigned(v.as_str(), usize::MAX as u64) {
            Some(n) => n as usize,
            None => default,
        },
        None => default,
    }
}

impl Settings {
    /// The settings that the values of the environment give, or the first
    /// required variable that is missing.
    pub fn from_values(env: EnvValues) -> (settings: Result<Settings, ConfigError>)
        ensures
            match settings {
                Ok(s) => missing(env@) is None && s@ == settings_of(env@),
                Err(e) => missing(env@) == Some(e),
            },
    {
        let worker_concurrency = size_or(&env.herald_worker_concurrency, 4);
        let rate_limit_free = number_or(&env.herald_rate_limit_free, 60);
        let rate_limit_pro = number_or(&env.herald_rate_limit_pro, 600);
        let rate_limit_ent = number_or(&env.herald_rate_limit_ent, 6000);
        let database_url = match pick(env.database_url, env.herald_database_url) {
            Some(v) => v,
            None => {
                return Err(ConfigError::DatabaseUrlMissing);
            },
        };
        let redis_url = match pick(env.redis_url, env.herald_redis_url) {
            Some(v) => v,
            None => {
                return Err(ConfigError::RedisUrlMissing);
            },
        };
        let herald_env = text_or(env.herald_env, "dev");
        let api_bind = text_or(env.herald_api_bind, "0.0.0.0:3000");
        let hmac_secret = match pick(env.herald_hmac_secret, env.hmac_secret) {
            Some(v) => v,
            None => {
                return Err(ConfigError::HmacSecretMissing);
            },
        };
        Ok(
            Settings {
                database_url,
                redis_url,
                herald_env,
                api_bind,
                worker_concurrency,
                hmac_secret,
                rate_limit_free,
                rate_limit_pro,
                rate_limit_ent,
            },
        )
    }
}

} // verus!
