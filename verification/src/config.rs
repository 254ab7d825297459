//! Configuration assembled from the process environment. The surrounding
//! binary snapshots the environment as name/value pairs; lookup, decimal
//! parsing and validation happen here. A variable that is absent or fails to
//! parse yields the same "not found" outcome, checked field by field in a
//! fixed order.

use vstd::prelude::*;
use vstd::string::StrSliceExecFns;

verus! {

/// A decimal digit.
pub open spec fn is_digit(c: char) -> bool {
    '0' <= c && c <= '9'
}

pub open spec fn all_digits(s: Seq<char>) -> bool {
    forall|i: int| 0 <= i < s.len() ==> is_digit(#[trigger] s[i])
}

/// The numeric value of a digit character.
pub open spec fn digit_value(c: char) -> int {
    c as int - 48
}

/// The value of a digit string, most significant first.
pub open spec fn dec_value(s: Seq<char>) -> int
    decreases s.len(),
{
    if s.len() == 0 {
        0
    } else {
        dec_value(s.drop_last()) * 10 + digit_value(s.last())
    }
}

proof fn lemma_dec_value_nonneg(s: Seq<char>)
    requires
        all_digits(s),
    ensures
        dec_value(s) >= 0,
    decreases s.len(),
{
    if s.len() > 0 {
        assert(all_digits(s.drop_last()));
        lemma_dec_value_nonneg(s.drop_last());
    }
}

/// What `str::parse` to a 64-bit signed integer yields: an optional sign,
/// then at least one digit, and the value must fit.
pub open spec fn spec_parse_i64(s: Seq<char>) -> Option<i64> {
    let negative = s.len() > 0 && s[0] == '-';
    let digits = if s.len() > 0 && (s[0] == '-' || s[0] == '+') {
        s.drop_first()
    } else {
        s
    };
    if digits.len() == 0 || !all_digits(digits) {
        None
    } else {
        let v = dec_value(digits);
        if negative {
            if -v >= i64::MIN {
                Some((-v) as i64)
            } else {
                None
            }
        } else {
            if v <= i64::MAX {
                Some(v as i64)
            } else {
                None
            }
        }
    }
}

/// The 32-bit parse: the 64-bit one, narrowed.
pub open spec fn spec_parse_i32(s: Seq<char>) -> Option<i32> {
    match spec_parse_i64(s) {
        Some(v) => if i32::MIN <= v <= i32::MAX {
            Some(v as i32)
        } else {
            None
        },
        None => None,
    }
}

/// Parse a decimal 64-bit signed integer: an optional sign, then digits.
pub fn parse_i64(s: &str) -> (r: Option<i64>)
    ensures
        r == spec_parse_i64(s@),
{
    let n = s.unicode_len();
    if n == 0 {
        return None;
    }
    let first = s.get_char(0);
    let negative = first == '-';
    let start: usize = if first == '-' || first == '+' {
        1
    } else {
        0
    };
    if n == start {
        return None;
    }
    let ghost digits = if start == 1 {
        s@.drop_first()
    } else {
        s@
    };
    proof {
        assert(digits =~= s@.subrange(start as int, n as int));
    }
    // saturate just past the largest magnitude either sign can need
    let mut acc: i128 = 0;
    let mut i: usize = start;
    while i < n
        invariant
            start <= i <= n,
            n == s@.len(),
            start < n,
            start == 1 || start == 0,
            start == 1 <==> (s@[0] == '-' || s@[0] == '+'),
            negative <==> s@[0] == '-',
            digits == (if start == 1 {
                s@.drop_first()
            } else {
                s@
            }),
            digits =~= s@.subrange(start as int, n as int),
            all_digits(s@.subrange(start as int, i as int)),
            ({
                let v = dec_value(s@.subrange(start as int, i as int));
                &&& (v <= i64::MAX as int + 1 ==> acc == v)
                &&& (v > i64::MAX as int + 1 ==> acc == i64::MAX as i128 + 2)
            }),
            0 <= acc <= i64::MAX as i128 + 2,
        decreases n - i,
    {
        let c = s.get_char(i);
        let u = c as u32;
        if u < 48 || u > 57 {
            proof {
                assert(!is_digit(s@[i as int]));
                assert(digits[i as int - start] == s@[i as int]);
                assert(!all_digits(digits));
            }
            return None;
        }
        let d = (u - 48) as i128;
        let ghost prefix = s@.subrange(start as int, i as int);
        let ghost extended = s@.subrange(start as int, i as int + 1);
        proof {
            assert(extended.drop_last() =~= prefix);
            assert(extended.last() == s@[i as int]);
            assert(all_digits(extended));
            lemma_dec_value_nonneg(prefix);
        }
        if acc > i64::MAX as i128 + 1 {
            // already past any representable magnitude; stay saturated
            proof {
                assert(dec_value(extended) == dec_value(prefix) * 10 + digit_value(s@[i as int]));
                assert(dec_value(prefix) * 10 >= dec_value(prefix)) by (nonlinear_arith)
                    requires
                        dec_value(prefix) >= 0,
                ;
            }
        } else {
            acc = acc * 10 + d;
            if acc > i64::MAX as i128 + 1 {
                acc = i64::MAX as i128 + 2;
            }
        }
        i = i + 1;
    }
    proof {
        assert(s@.subrange(start as int, n as int) =~= digits);
        lemma_dec_value_nonneg(digits);
    }
    if negative {
        if acc > i64::MAX as i128 + 1 {
            None
        } else {
            Some((-acc) as i64)
        }
    } else {
        if acc > i64::MAX as i128 {
            None
        } else {
            Some(acc as i64)
        }
    }
}

/// Parse a decimal 32-bit signed integer.
pub fn parse_i32(s: &str) -> (r: Option<i32>)
    ensures
        r == spec_parse_i32(s@),
{
    match parse_i64(s) {
        Some(v) => {
            if i32::MIN as i64 <= v && v <= i32::MAX as i64 {
                Some(v as i32)
            } else {
                None
            }
        },
        None => None,
    }
}

/// The value of the first pair whose name matches.
pub open spec fn spec_lookup(env: Seq<(String, String)>, key: Seq<char>) -> Option<Seq<char>>
    decreases env.len(),
{
    if env.len() == 0 {
        None
    } else if env[0].0@ == key {
        Some(env[0].1@)
    } else {
        spec_lookup(env.drop_first(), key)
    }
}

/// Look a variable up in the environment snapshot (first match wins).
pub fn env_lookup(env: &Vec<(String, String)>, key: &str) -> (r: Option<String>)
    ensures
        match r {
            Some(v) => spec_lookup(env@, key@) == Some(v@),
            None => spec_lookup(env@, key@) is None,
        },
{
    let n = env.len();
    proof {
        assert(env@.skip(0) =~= env@);
    }
    let mut i: usize = 0;
    while i < n
        invariant
            i <= n,
            n == env@.len(),
            spec_lookup(env@, key@) == spec_lookup(env@.skip(i as int), key@),
        decreases n - i,
    {
        proof {
            assert(env@.skip(i as int).len() > 0);
            assert(env@.skip(i as int)[0] == env@[i as int]);
            assert(env@.skip(i as int).drop_first() =~= env@.skip(i as int + 1));
        }
        if crate::routing::chars_eq(env[i].0.as_str(), key) {
            return Some(env[i].1.clone());
        }
        i = i + 1;
    }
    proof {
        assert(env@.skip(n as int).len() == 0);
    }
    None
}

/// What the bot needs from its environment.
#[derive(PartialEq, Eq, Debug, Clone)]
pub struct AppConfig {
    pub api_id: i32,
    pub api_hash: String,
    pub bot_token: String,
    pub download_directory: String,
    pub user_id: i64,
}

/// The first variable, in checking order, that was absent or unparsable.
#[derive(PartialEq, Eq, Structural, Clone, Copy, Debug)]
pub enum ConfigError {
    ApiIdNotFound,
    ApiHashNotFound,
    BotTokenNotFound,
    UserIdNotFound,
    DownloadDirectoryNotFound,
}

impl ConfigError {
    /// The error text: the variable's name, "not found".
    pub fn message(&self) -> (r: String)
        ensures
            *self == ConfigError::ApiIdNotFound ==> r@ == "TELEGRAM_API_ID not found"@,
            *self == ConfigError::ApiHashNotFound ==> r@ == "TELEGRAM_API_HASH not found"@,
            *self == ConfigError::BotTokenNotFound ==> r@ == "BOT_TOKEN not found"@,
            *self == ConfigError::UserIdNotFound ==> r@ == "USER_ID not found"@,
            *self == ConfigError::DownloadDirectoryNotFound ==> r@
                == "DOWNLOAD_DIRECTORY not found"@,
    {
        match self {
            ConfigError::ApiIdNotFound => "TELEGRAM_API_ID not found".to_owned(),
            ConfigError::ApiHashNotFound => "TELEGRAM_API_HASH not found".to_owned(),
            ConfigError::BotTokenNotFound => "BOT_TOKEN not found".to_owned(),
            ConfigError::UserIdNotFound => "USER_ID not found".to_owned(),
            ConfigError::DownloadDirectoryNotFound => "DOWNLOAD_DIRECTORY not found".to_owned(),
        }
    }
}

/// The api-id variable holds a parsable value.
pub open spec fn ok_api_id(env: Seq<(String, String)>) -> bool {
    match spec_lookup(env, "TELEGRAM_API_ID"@) {
        Some(v) => spec_parse_i32(v) is Some,
        None => false,
    }
}

pub open spec fn ok_api_hash(env: Seq<(String, String)>) -> bool {
    spec_lookup(env, "TELEGRAM_API_HASH"@) is Some
}

pub open spec fn ok_bot_token(env: Seq<(String, String)>) -> bool {
    spec_lookup(env, "BOT_TOKEN"@) is Some
}

/// The user-id variable holds a parsable value.
pub open spec fn ok_user_id(env: Seq<(String, String)>) -> bool {
    match spec_lookup(env, "USER_ID"@) {
        Some(v) => spec_parse_i64(v) is Some,
        None => false,
    }
}

pub open spec fn ok_download_directory(env: Seq<(String, String)>) -> bool {
    spec_lookup(env, "DOWNLOAD_DIRECTORY"@) is Some
}

impl AppConfig {
    /// Assemble the configuration from an environment snapshot. Succeeds
    /// exactly when every variable is present and parsable; otherwise names
    /// the first offender, in the order the fields are checked.
    pub fn from_env(env: &Vec<(String, String)>) -> (r: Result<AppConfig, ConfigError>)
        ensures
            r is Ok <==> ok_api_id(env@) && ok_api_hash(env@) && ok_bot_token(env@) && ok_user_id(
                env@,
            ) && ok_download_directory(env@),
            r matches Ok(c) ==> {
                &&& spec_lookup(env@, "TELEGRAM_API_ID"@) matches Some(v) && spec_parse_i32(v)
                    == Some(c.api_id)
                &&& spec_lookup(env@, "TELEGRAM_API_HASH"@) == Some(c.api_hash@)
                &&& spec_lookup(env@, "BOT_TOKEN"@) == Some(c.bot_token@)
                &&& spec_lookup(env@, "USER_ID"@) matches Some(v) && spec_parse_i64(v) == Some(
                    c.user_id,
                )
                &&& spec_lookup(env@, "DOWNLOAD_DIRECTORY"@) == Some(c.download_directory@)
            },
            r == Err::<AppConfig, _>(ConfigError::ApiIdNotFound) <==> !ok_api_id(env@),
            r == Err::<AppConfig, _>(ConfigError::ApiHashNotFound) <==> ok_api_id(env@)
                && !ok_api_hash(env@),
            r == Err::<AppConfig, _>(ConfigError::BotTokenNotFound) <==> ok_api_id(env@)
                && ok_api_hash(env@) && !ok_bot_token(env@),
            r == Err::<AppConfig, _>(ConfigError::UserIdNotFound) <==> ok_api_id(env@)
                && ok_api_hash(env@) && ok_bot_token(env@) && !ok_user_id(env@),
            r == Err::<AppConfig, _>(ConfigError::DownloadDirectoryNotFound) <==> ok_api_id(env@)
                && ok_api_hash(env@) && ok_bot_token(env@) && ok_user_id(env@)
                && !ok_download_directory(env@),
    {
        let api_id = match env_lookup(env, "TELEGRAM_API_ID") {
            Some(raw) => match parse_i32(raw.as_str()) {
                Some(v) => v,
                None => {
                    return Err(ConfigError::ApiIdNotFound);
                },
            },
            None => {
                return Err(ConfigError::ApiIdNotFound);
            },
        };
        let api_hash = match env_lookup(env, "TELEGRAM_API_HASH") {
            Some(raw) => raw,
            None => {
                return Err(ConfigError::ApiHashNotFound);
            },
        };
        let bot_token = match env_lookup(env, "BOT_TOKEN") {
            Some(raw) => raw,
            None => {
                return Err(ConfigError::BotTokenNotFound);
            },
        };
        let user_id = match env_lookup(env, "USER_ID") {
            Some(raw) => match parse_i64(raw.as_str()) {
                Some(v) => v,
                None => {
                    return Err(ConfigError::UserIdNotFound);
                },
            },
            None => {
                return Err(ConfigError::UserIdNotFound);
            },
        };
        let download_directory = match env_lookup(env, "DOWNLOAD_DIRECTORY") {
            Some(raw) => raw,
            None => {
                return Err(ConfigError::DownloadDirectoryNotFound);
            },
        };
        Ok(AppConfig { api_id, api_hash, bot_token, download_directory, user_id })
    }
}

} // verus!
