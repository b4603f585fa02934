//! The settings of the service, as the environment gives them.

use crate::text::{chars_of, strip_trailing, trim_end_slashes};
use vstd::prelude::*;

verus! {

/// The port that is served where the environment names none.
pub const DEFAULT_PORT: u16 = 8080;

/// The settings of the service.
#[derive(Debug, PartialEq, Eq)]
pub struct Config {
    pub port: u16,
    pub supabase_url: String,
    pub supabase_service_role_key: String,
    pub auth0_domain: String,
    pub auth0_audience: String,
}

impl Clone for Config {
    fn clone(&self) -> (r: Self)
        ensures
            r.port == self.port,
            r.supabase_url@ == self.supabase_url@,
            r.supabase_service_role_key@ == self.supabase_service_role_key@,
            r.auth0_domain@ == self.auth0_domain@,
            r.auth0_audience@ == self.auth0_audience@,
    {
        Config {
            port: self.port,
            supabase_url: self.supabase_url.clone(),
            supabase_service_role_key: self.supabase_service_role_key.clone(),
            auth0_domain: self.auth0_domain.clone(),
            auth0_audience: self.auth0_audience.clone(),
        }
    }
}

/// A setting that the service cannot do without, and that is missing.
#[derive(Clone, Copy, Debug, PartialEq, Eq, Structural)]
pub enum ConfigError {
    MissingSupabaseUrl,
    MissingServiceRoleKey,
    MissingAuth0Domain,
    MissingAuth0Audience,
}

/// Whether every character of `s` is a decimal digit.
pub open spec fn all_digits(s: Seq<char>) -> bool {
    forall|i: int| 0 <= i < s.len() ==> '0' <= #[trigger] s[i] <= '9'
}

/// The number that the decimal digits `s` write.
pub open spec fn digits_value(s: Seq<char>) -> int
    decreases s.len(),
{
    if s.len() == 0 {
        0
    } else {
        digits_value(s.drop_last()) * 10 + (s.last() as int - '0' as int)
    }
}

/// The port that a text names: decimal digits, with a plus sign before
/// them or without, that write a number of sixteen bits.
pub open spec fn port_of(text: Seq<char>) -> Option<u16> {
    let digits = if text.len() > 0 && text[0] == '+' {
        text.drop_first()
    } else {
        text
    };
    if digits.len() > 0 && all_digits(digits) && digits_value(digits) <= u16::MAX {
        Some(digits_value(digits) as u16)
    } else {
        None
    }
}

proof fn lemma_digits_grow(s: Seq<char>, n: int)
    requires
        all_digits(s),
        0 <= n <= s.len(),
    ensures
        0 <= digits_value(s.take(n)) <= digits_value(s),
    decreases s.len() - n,
{
    if n == s.len() {
        assert(s.take(n) =~= s);
        lemma_digits_nonnegative(s);
    } else {
        lemma_digits_grow(s, n + 1);
        assert(s.take(n + 1).drop_last() =~= s.take(n));
        assert(s.take(n + 1).last() == s[n]);
        lemma_digits_nonnegative(s.take(n));
    }
}

proof fn lemma_digits_nonnegative(s: Seq<char>)
    requires
        all_digits(s),
    ensures
        0 <= digits_value(s),
    decreases s.len(),
{
    if s.len() > 0 {
        assert(all_digits(s.drop_last())) by {
            assert forall|i: int| 0 <= i < s.drop_last().len() implies '0' <= #[trigger] s.drop_last()[i]
                <= '9' by {
                assert(s.drop_last()[i] == s[i]);
            }
        }
        lemma_digits_nonnegative(s.drop_last());
    }
}

/// Reads a port.
pub fn parse_port(text: &str) -> (r: Option<u16>)
    ensures
        r == port_of(text@),
{
    let v = chars_of(text);
    let start: usize = if v.len() > 0 && v[0] == '+' {
        1
    } else {
        0
    };
    let ghost digits = v@.skip(start as int);
    assert(digits =~= if text@.len() > 0 && text@[0] == '+' {
        text@.drop_first()
    } else {
        text@
    });
    if v.len() == start {
        return None;
    }
    let mut value: u32 = 0;
    let mut i: usize = start;
    assert(digits.take(0) =~= Seq::empty());
    while i < v.len()
        invariant
            start <= i <= v.len(),
            digits == v@.skip(start as int),
            digits == (if text@.len() > 0 && text@[0] == '+' {
                text@.drop_first()
            } else {
                text@
            }),
            all_digits(digits.take(i - start)),
            value == digits_value(digits.take(i - start)),
            value <= u16::MAX,
        decreases v.len() - i,
    {
        let c = v[i];
        assert(digits[i - start] == c);
        if !('0' <= c && c <= '9') {
            assert(!all_digits(digits));
            return None;
        }
        let digit: u32 = c as u32 - '0' as u32;
        let next: u32 = value * 10 + digit;
        proof {
            let upto = digits.take(i - start + 1);
            assert(upto.drop_last() =~= digits.take(i - start));
            assert(upto.last() == c);
            assert forall|j: int| 0 <= j < upto.len() implies '0' <= #[trigger] upto[j] <= '9' by {
                if j < i - start {
                    assert(digits.take(i - start)[j] == upto[j]);
                }
            }
        }
        if next > 65535 {
            proof {
                if all_digits(digits) {
                    lemma_digits_grow(digits, i - start + 1);
                }
            }
            return None;
        }
        value = next;
        i += 1;
    }
    assert(digits.take(v.len() - start) =~= digits);
    Some(value as u16)
}

impl Config {
    /// The settings that the values of the environment give, each
    /// `None` where the environment has no such variable. A port that
    /// is missing or cannot be read is the default port; the two
    /// addresses lose the slashes at their end.
    pub fn from_env(
        port: Option<&str>,
        supabase_url: Option<String>,
        supabase_service_role_key: Option<String>,
        auth0_domain: Option<String>,
        auth0_audience: Option<String>,
    ) -> (r: Result<Config, ConfigError>)
        ensures
            match (supabase_url, supabase_service_role_key, auth0_domain, auth0_audience) {
                (None, _, _, _) => r == Err::<Config, ConfigError>(ConfigError::MissingSupabaseUrl),
                (Some(_), None, _, _) => r == Err::<Config, ConfigError>(
                    ConfigError::MissingServiceRoleKey,
                ),
                (Some(_), Some(_), None, _) => r == Err::<Config, ConfigError>(
                    ConfigError::MissingAuth0Domain,
                ),
                (Some(_), Some(_), Some(_), None) => r == Err::<Config, ConfigError>(
                    ConfigError::MissingAuth0Audience,
                ),
                (Some(url), Some(key), Some(domain), Some(audience)) => r matches Ok(c) && {
                    &&& c.port == match port {
                        Some(text) => match port_of(text@) {
                            Some(p) => p,
                            None => DEFAULT_PORT,
                        },
                        None => DEFAULT_PORT,
                    }
                    &&& c.supabase_url@ == strip_trailing(url@, '/')
                    &&& c.supabase_service_role_key@ == key@
                    &&& c.auth0_domain@ == strip_trailing(domain@, '/')
                    &&& c.auth0_audience@ == audience@
                },
            },
    {
        let port = match port {
            Some(text) => match parse_port(text) {
                Some(p) => p,
                None => DEFAULT_PORT,
            },
            None => DEFAULT_PORT,
        };
        let supabase_url = match supabase_url {
            Some(v) => v,
            None => {
                return Err(ConfigError::MissingSupabaseUrl);
            },
        };
        let supabase_service_role_key = match supabase_service_role_key {
            Some(v) => v,
            None => {
                return Err(ConfigError::MissingServiceRoleKey);
            },
        };
        let auth0_domain = match auth0_domain {
            Some(v) => v,
            None => {
                return Err(ConfigError::MissingAuth0Domain);
            },
        };
        let auth0_audience = match auth0_audience {
            Some(v) => v,
            None => {
                return Err(ConfigError::MissingAuth0Audience);
            },
        };
        Ok(
            Config {
                port,
                supabase_url: trim_end_slashes(supabase_url.as_str()).to_owned(),
                supabase_service_role_key,
                auth0_domain: trim_end_slashes(auth0_domain.as_str()).to_owned(),
                auth0_audience,
            },
        )
    }
}

} // verus!
