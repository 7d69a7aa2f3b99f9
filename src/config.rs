use vstd::prelude::*;

use crate::errors::ConfigError;

verus! {

pub const DEFAULT_HOST: &'static str = "127.0.0.1";

pub const DEFAULT_PORT: u16 = 5665;

/// Where the service listens.
#[derive(Debug)]
pub struct Config {
    pub host: String,
    pub port: u16,
}

pub open spec fn all_ascii_digits(s: Seq<char>) -> bool {
    forall|i: int| 0 <= i < s.len() ==> '0' <= #[trigger] s[i] <= '9'
}

/// The number that a string of decimal digits writes.
pub open spec fn decimal_value(s: Seq<char>) -> int
    decreases s.len(),
{
    if s.len() == 0 {
        0
    } else {
        decimal_value(s.drop_last()) * 10 + (s.last() as int - '0' as int)
    }
}

/// The port that `s` writes: an optional `+` and then one or more decimal
/// digits, with a value that fits 16 bits.
pub open spec fn port_from_text(s: Seq<char>) -> Option<u16> {
    let digits = if s.len() > 0 && s[0] == '+' {
        s.drop_first()
    } else {
        s
    };
    if digits.len() > 0 && all_ascii_digits(digits) && decimal_value(digits) <= u16::MAX {
        Some(decimal_value(digits) as u16)
    } else {
        None
    }
}

/// Relies on `str::parse::<u16>`: it accepts exactly an optional `+` followed
/// by ASCII digits whose value fits `u16`, and refuses anything else.
#[verifier::external_body]
fn parse_port(s: &str) -> (r: Option<u16>)
    ensures
        r == port_from_text(s@),
{
    s.parse::<u16>().ok()
}

impl Config {
    /// The configuration from optional host and port settings; an absent one
    /// takes its default, and a port that is not a valid 16-bit number is an
    /// error.
    pub fn from_settings(host: Option<String>, port: Option<String>) -> (r: Result<Config, ConfigError>)
        ensures
            match port {
                Some(p) => port_from_text(p@) is None <==> r is Err,
                None => r is Ok,
            },
            r is Err ==> r == Err::<Config, ConfigError>(ConfigError::InvalidPort),
            r matches Ok(c) ==> match host {
                Some(h) => c.host == h,
                None => c.host@ == DEFAULT_HOST@,
            },
            r matches Ok(c) ==> match port {
                Some(p) => Some(c.port) == port_from_text(p@),
                None => c.port == DEFAULT_PORT,
            },
    {
        let host = match host {
            Some(h) => h,
            None => String::from_str(DEFAULT_HOST),
        };
        let port = match port {
            Some(p) => match parse_port(p.as_str()) {
                Some(n) => n,
                None => {
                    return Err(ConfigError::InvalidPort);
                },
            },
            None => DEFAULT_PORT,
        };
        Ok(Config { host, port })
    }
}

} // verus!
