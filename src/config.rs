//! The service's configuration, as read from its environment.

use vstd::prelude::*;
use crate::text::{trim_of, trim_str};

verus! {

/// The settings the service runs with.
#[derive(Clone, Debug)]
pub struct Config {
    pub database_url: String,
    pub jwt_secret: String,
    pub port: u16,
    pub allowed_origins: Vec<String>,
    pub environment: String,
}

/// Why the configuration could not be built.
#[derive(Clone, Copy, Debug, PartialEq, Eq, Structural)]
pub enum ConfigError {
    /// The port is not a number from 0 to 65535.
    InvalidPort,
}

pub open spec fn is_digit(c: char) -> bool {
    '0' <= c <= '9'
}

pub open spec fn all_digits(d: Seq<char>) -> bool {
    forall|i: int| 0 <= i < d.len() ==> is_digit(#[trigger] d[i])
}

/// The number that a string of decimal digits writes.
pub open spec fn decimal_value(d: Seq<char>) -> nat
    decreases d.len(),
{
    if d.len() == 0 {
        0
    } else {
        decimal_value(d.drop_last()) * 10 + (d.last() as nat - '0' as nat) as nat
    }
}

/// The port that `s` writes: an optional `+` and then one or more decimal
/// digits, with a value that fits in 16 bits.
pub open spec fn port_value(s: Seq<char>) -> Option<u16> {
    let d = if s.len() > 0 && s[0] == '+' {
        s.drop_first()
    } else {
        s
    };
    if d.len() > 0 && all_digits(d) && decimal_value(d) <= u16::MAX {
        Some(decimal_value(d) as u16)
    } else {
        None
    }
}

/// The pieces of `s` between occurrences of `sep`; there is always at
/// least one, and an empty string gives one empty piece.
pub open spec fn split_on(s: Seq<char>, sep: char) -> Seq<Seq<char>>
    decreases s.len(),
{
    if s.len() == 0 {
        seq![Seq::empty()]
    } else {
        let init = split_on(s.drop_last(), sep);
        if s.last() == sep {
            init.push(Seq::empty())
        } else {
            init.update(init.len() - 1, init.last().push(s.last()))
        }
    }
}

/// A prefix of a string of digits writes no larger number than the whole.
proof fn lemma_prefix_value_le(d: Seq<char>, k: int)
    requires
        all_digits(d),
        0 <= k <= d.len(),
    ensures
        decimal_value(d.take(k)) <= decimal_value(d),
    decreases d.len(),
{
    if k < d.len() {
        let init = d.drop_last();
        assert(init.take(k) =~= d.take(k));
        assert(all_digits(init)) by {
            assert forall|i: int| 0 <= i < init.len() implies is_digit(#[trigger] init[i]) by {
                assert(init[i] == d[i]);
            }
        }
        lemma_prefix_value_le(init, k);
    } else {
        assert(d.take(k) =~= d);
    }
}

/// Parses a port number as `u16::from_str` does.
pub fn parse_port(s: &str) -> (r: Option<u16>)
    ensures
        r == port_value(s@),
{
    let n = s.unicode_len();
    let start: usize = if n > 0 && s.get_char(0) == '+' {
        1
    } else {
        0
    };
    let ghost d = s@.subrange(start as int, n as int);
    assert(d =~= (if s@.len() > 0 && s@[0] == '+' { s@.drop_first() } else { s@ }));
    if start == n {
        return None;
    }
    let mut acc: u32 = 0;
    let mut i: usize = start;
    while i < n
        invariant
            n == s@.len(),
            start <= i <= n,
            d == s@.subrange(start as int, n as int),
            d == (if s@.len() > 0 && s@[0] == '+' { s@.drop_first() } else { s@ }),
            acc == decimal_value(d.take(i - start)),
            acc <= u16::MAX,
            all_digits(d.take(i - start)),
        decreases n - i,
    {
        let c = s.get_char(i);
        let ghost pre = d.take(i - start);
        let ghost next = d.take(i - start + 1);
        assert(next.drop_last() =~= pre);
        assert(next.last() == c);
        if c < '0' || c > '9' {
            assert(!is_digit(d[i - start]));
            return None;
        }
        let digit = (c as u32) - ('0' as u32);
        let value = acc * 10 + digit;
        assert(value == decimal_value(next));
        assert(all_digits(next)) by {
            assert forall|k: int| 0 <= k < next.len() implies is_digit(#[trigger] next[k]) by {
                if k < pre.len() {
                    assert(next[k] == pre[k]);
                }
            }
        }
        if value > 65535 {
            proof {
                if all_digits(d) {
                    lemma_prefix_value_le(d, i - start + 1);
                }
            }
            return None;
        }
        acc = value;
        i = i + 1;
    }
    assert(d.take(n - start) =~= d);
    Some(acc as u16)
}

/// Splits `s` at every `sep`.
pub fn split_at_char(s: &str, sep: char) -> (r: Vec<String>)
    ensures
        r@.len() == split_on(s@, sep).len(),
        forall|i: int| 0 <= i < r@.len() ==> #[trigger] r@[i]@ == split_on(s@, sep)[i],
{
    let n = s.unicode_len();
    let mut pieces: Vec<String> = Vec::new();
    let mut current = String::new();
    let mut i: usize = 0;
    while i < n
        invariant
            n == s@.len(),
            i <= n,
            pieces@.len() + 1 == split_on(s@.take(i as int), sep).len(),
            forall|k: int| 0 <= k < pieces@.len() ==> #[trigger] pieces@[k]@ == split_on(s@.take(i as int), sep)[k],
            current@ == split_on(s@.take(i as int), sep).last(),
        decreases n - i,
    {
        let c = s.get_char(i);
        let ghost before = split_on(s@.take(i as int), sep);
        let ghost next = s@.take(i as int + 1);
        assert(next.drop_last() =~= s@.take(i as int));
        assert(next.last() == c);
        if c == sep {
            pieces.push(current);
            current = String::new();
        } else {
            let one = s.substring_char(i, i + 1);
            assert(one@ =~= seq![c]);
            current.append(one);
        }
        i = i + 1;
    }
    assert(s@.take(n as int) =~= s@);
    pieces.push(current);
    pieces
}

pub open spec fn default_port() -> Seq<char> {
    "8080"@
}

pub open spec fn default_origins() -> Seq<char> {
    "http://localhost:3000"@
}

pub open spec fn default_environment() -> Seq<char> {
    "development"@
}

/// The value given, else the default.
pub open spec fn or_default(v: Option<String>, default: Seq<char>) -> Seq<char> {
    match v {
        Some(s) => s@,
        None => default,
    }
}

fn value_or(v: Option<String>, default: &str) -> (r: String)
    ensures
        r@ == match v {
            Some(s) => s@,
            None => default@,
        },
{
    match v {
        Some(s) => s,
        None => default.to_owned(),
    }
}

impl Config {
    /// Builds the configuration from the raw settings: the port defaults to
    /// 8080 and must parse; the allowed origins default to the local front
    /// end and are split at commas, each trimmed; the environment defaults
    /// to `development`.
    pub fn from_values(
        database_url: String,
        jwt_secret: String,
        port: Option<String>,
        allowed_origins: Option<String>,
        environment: Option<String>,
    ) -> (r: Result<Config, ConfigError>)
        ensures
            match port_value(or_default(port, default_port())) {
                None => r == Err::<Config, ConfigError>(ConfigError::InvalidPort),
                Some(p) => r matches Ok(c) && {
                    let pieces = split_on(or_default(allowed_origins, default_origins()), ',');
                    &&& c.database_url == database_url
                    &&& c.jwt_secret == jwt_secret
                    &&& c.port == p
                    &&& c.allowed_origins@.len() == pieces.len()
                    &&& forall|i: int|
                        0 <= i < pieces.len() ==> #[trigger] c.allowed_origins@[i]@ == trim_of(pieces[i])
                    &&& c.environment@ == or_default(environment, default_environment())
                },
            },
    {
        proof {
            reveal_strlit("8080");
            reveal_strlit("http://localhost:3000");
            reveal_strlit("development");
        }
        let port_text = value_or(port, "8080");
        let port = match parse_port(port_text.as_str()) {
            Some(p) => p,
            None => return Err(ConfigError::InvalidPort),
        };
        let origins_text = value_or(allowed_origins, "http://localhost:3000");
        let pieces = split_at_char(origins_text.as_str(), ',');
        let mut origins: Vec<String> = Vec::new();
        let mut i: usize = 0;
        while i < pieces.len()
            invariant
                i <= pieces@.len(),
                origins@.len() == i,
                forall|k: int| 0 <= k < i ==> #[trigger] origins@[k]@ == trim_of(pieces@[k]@),
            decreases pieces@.len() - i,
        {
            let t = trim_str(pieces[i].as_str());
            origins.push(t.to_owned());
            i = i + 1;
        }
        let environment = value_or(environment, "development");
        Ok(Config { database_url, jwt_secret, port, allowed_origins: origins, environment })
    }


    /// Whether the service runs in production.
    pub fn is_production(&self) -> (r: bool)
        ensures
            r == (self.environment@ == "production"@),
    {
        let production = String::from_str("production");
        proof {
            reveal_strlit("production");
        }
        self.environment == production
    }
}


} // verus!
