//! Startup configuration: defaults, port parsing and the storage URL.
use vstd::prelude::*;
use vstd::string::{StrSliceExecFns, StringExecFns};

use crate::error::ApiError;

verus! {

/// Whether `c` is an ASCII decimal digit.
pub open spec fn is_digit(c: char) -> bool {
    '0' <= c <= '9'
}

/// The value of a decimal digit.
pub open spec fn digit_value(c: char) -> int {
    c as int - '0' as int
}

/// The number written by a string of decimal digits.
pub open spec fn digits_value(s: Seq<char>) -> int
    decreases s.len(),
{
    if s.len() == 0 {
        0
    } else {
        digits_value(s.drop_last()) * 10 + digit_value(s.last())
    }
}

/// The digits of a port number, after an optional leading '+'.
pub open spec fn port_digits(s: Seq<char>) -> Seq<char> {
    if s.len() > 0 && s[0] == '+' {
        s.drop_first()
    } else {
        s
    }
}

/// The port number a text denotes, as `u16`'s parser reads it: an optional
/// '+', then one or more decimal digits, at most 65535.
pub open spec fn port_value(s: Seq<char>) -> Option<u16> {
    let d = port_digits(s);
    if d.len() > 0 && (forall|i: int| 0 <= i < d.len() ==> is_digit(#[trigger] d[i])) && digits_value(
        d,
    ) <= 65535 {
        Some(digits_value(d) as u16)
    } else {
        None
    }
}

proof fn lemma_digits_value_grows(s: Seq<char>, i: int)
    requires
        0 <= i <= s.len(),
        forall|j: int| 0 <= j < s.len() ==> is_digit(#[trigger] s[j]),
    ensures
        0 <= digits_value(s.subrange(0, i)) <= digits_value(s),
    decreases s.len(),
{
    if s.len() > 0 {
        let init = s.drop_last();
        assert forall|j: int| 0 <= j < init.len() implies is_digit(#[trigger] init[j]) by {
            assert(init[j] == s[j]);
        }
        if i == s.len() {
            assert(s.subrange(0, i) =~= s);
            lemma_digits_value_grows(init, init.len() as int);
            assert(init.subrange(0, init.len() as int) =~= init);
        } else {
            lemma_digits_value_grows(init, i);
            lemma_digits_value_grows(init, init.len() as int);
            assert(init.subrange(0, i) =~= s.subrange(0, i));
            assert(init.subrange(0, init.len() as int) =~= init);
        }
    }
}

/// Reads a port number.
pub fn parse_port(text: &str) -> (r: Option<u16>)
    ensures
        r == port_value(text@),
{
    let n = text.unicode_len();
    let mut start: usize = 0;
    if n > 0 && text.get_char(0) == '+' {
        start = 1;
    }
    let ghost d = port_digits(text@);
    assert(d =~= text@.subrange(start as int, n as int));
    if start == n {
        return None;
    }
    let mut value: u32 = 0;
    let mut i: usize = start;
    while i < n
        invariant
            n == text@.len(),
            start <= i <= n,
            d == text@.subrange(start as int, n as int),
            d == port_digits(text@),
            value <= 65535,
            value == digits_value(d.subrange(0, i - start)),
            forall|j: int| 0 <= j < i - start ==> is_digit(#[trigger] d[j]),
        decreases n - i,
    {
        let c = text.get_char(i);
        assert(c == d[i - start]);
        if c < '0' || c > '9' {
            return None;
        }
        proof {
            assert(d.subrange(0, i - start + 1).drop_last() =~= d.subrange(0, i - start));
        }
        value = value * 10 + (c as u32 - '0' as u32);
        if value > 65535 {
            proof {
                if forall|j: int| 0 <= j < d.len() ==> is_digit(#[trigger] d[j]) {
                    lemma_digits_value_grows(d, i - start + 1);
                }
            }
            return None;
        }
        i = i + 1;
    }
    assert(d.subrange(0, n - start) =~= d);
    Some(value as u16)
}

/// The decimal digit character for `d` < 10.
pub open spec fn digit_char(d: int) -> char {
    ('0' as int + d) as char
}

/// The decimal text of a number, without leading zeros.
pub open spec fn decimal_text(n: nat) -> Seq<char>
    decreases n,
{
    if n < 10 {
        seq![digit_char(n as int)]
    } else {
        decimal_text(n / 10).push(digit_char((n % 10) as int))
    }
}

/// The one-character text of a decimal digit.
fn digit_text(d: u16) -> (r: &'static str)
    requires
        d < 10,
    ensures
        r@ == seq![digit_char(d as int)],
{
    let digits = "0123456789";
    proof {
        reveal_strlit("0123456789");
    }
    let r = digits.substring_char(d as usize, d as usize + 1);
    assert(r@ =~= seq![digit_char(d as int)]);
    r
}

/// The decimal text of a port number.
pub fn port_text(n: u16) -> (r: String)
    ensures
        r@ == decimal_text(n as nat),
    decreases n,
{
    if n < 10 {
        String::from_str(digit_text(n))
    } else {
        let mut s = port_text(n / 10);
        s.append(digit_text(n % 10));
        s
    }
}

/// Application configuration.
#[derive(Debug)]
pub struct Config {
    pub api_port: u16,
    pub pg_host: String,
    pub pg_port: u16,
    pub pg_database: String,
    pub pg_user: String,
    pub pg_password: String,
}

/// A setting's text, or its default when it is not set.
pub open spec fn text_or(v: Option<String>, default: Seq<char>) -> Seq<char> {
    match v {
        Some(t) => t@,
        None => default,
    }
}

/// The PostgreSQL connection URL of a configuration; the password part is
/// left out when the password is empty.
pub open spec fn database_url_of(c: Config) -> Seq<char> {
    let auth = if c.pg_password@.len() == 0 {
        c.pg_user@
    } else {
        c.pg_user@ + ":"@ + c.pg_password@
    };
    "postgres://"@ + auth + "@"@ + c.pg_host@ + ":"@ + decimal_text(c.pg_port as nat) + "/"@
        + c.pg_database@
}

/// A setting's text, or its default.
fn setting_or(v: Option<String>, default: &str) -> (r: String)
    ensures
        r@ == text_or(v, default@),
{
    match v {
        Some(t) => t,
        None => String::from_str(default),
    }
}

impl Config {
    /// Builds the configuration from the settings that are present, filling
    /// in defaults (API port 3000, host "localhost", storage port 4567,
    /// database "dev", user "root", empty password). A port that does not
    /// parse is a configuration error, the API port checked first.
    pub fn from_settings(
        api_port: Option<String>,
        pg_host: Option<String>,
        pg_port: Option<String>,
        pg_database: Option<String>,
        pg_user: Option<String>,
        pg_password: Option<String>,
    ) -> (r: Result<Config, ApiError>)
        ensures
            port_value(text_or(api_port, "3000"@)) is None ==> (r matches Err(ApiError::Config(m))
                && m@ == "Invalid API_PORT"@),
            port_value(text_or(api_port, "3000"@)) is Some && port_value(text_or(pg_port, "4567"@)) is None
                ==> (r matches Err(ApiError::Config(m)) && m@ == "Invalid PG_PORT"@),
            port_value(text_or(api_port, "3000"@)) is Some && port_value(text_or(pg_port, "4567"@)) is Some
                ==> (r matches Ok(c) && Some(c.api_port) == port_value(text_or(api_port, "3000"@))
                && Some(c.pg_port) == port_value(text_or(pg_port, "4567"@))
                && c.pg_host@ == text_or(pg_host, "localhost"@)
                && c.pg_database@ == text_or(pg_database, "dev"@)
                && c.pg_user@ == text_or(pg_user, "root"@)
                && c.pg_password@ == text_or(pg_password, ""@)),
    {
        let api_text = setting_or(api_port, "3000");
        let api_port = match parse_port(api_text.as_str()) {
            Some(p) => p,
            None => {
                return Err(ApiError::Config(String::from_str("Invalid API_PORT")));
            },
        };
        let pg_port_text = setting_or(pg_port, "4567");
        let pg_port = match parse_port(pg_port_text.as_str()) {
            Some(p) => p,
            None => {
                return Err(ApiError::Config(String::from_str("Invalid PG_PORT")));
            },
        };
        Ok(Config {
            api_port,
            pg_host: setting_or(pg_host, "localhost"),
            pg_port,
            pg_database: setting_or(pg_database, "dev"),
            pg_user: setting_or(pg_user, "root"),
            pg_password: setting_or(pg_password, ""),
        })
    }

    /// The PostgreSQL connection URL.
    pub fn database_url(&self) -> (r: String)
        ensures
            r@ == database_url_of(*self),
    {
        let mut url = String::from_str("postgres://");
        url.append(self.pg_user.as_str());
        if self.pg_password.as_str().unicode_len() != 0 {
            url.append(":");
            url.append(self.pg_password.as_str());
        }
        url.append("@");
        url.append(self.pg_host.as_str());
        url.append(":");
        let port = port_text(self.pg_port);
        url.append(port.as_str());
        url.append("/");
        url.append(self.pg_database.as_str());
        proof {
            let auth = if self.pg_password@.len() == 0 {
                self.pg_user@
            } else {
                self.pg_user@ + ":"@ + self.pg_password@
            };
            assert(url@ =~= "postgres://"@ + auth + "@"@ + self.pg_host@ + ":"@ + decimal_text(
                self.pg_port as nat,
            ) + "/"@ + self.pg_database@);
        }
        url
    }
}

} // verus!
