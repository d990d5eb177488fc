//! What the service reads from its environment at start: the mode it runs in,
//! the port it listens on and the latency it simulates.

use crate::api::same_text;
use crate::blog::{lowercase, to_lowercase};
use vstd::prelude::*;

verus! {

/// The port that is used where none is set.
pub const DEFAULT_PORT: u16 = 5000;

/// The number that `str::parse` reads from a text as a `u64`, if it reads one.
pub uninterp spec fn decimal_value(text: Seq<char>) -> Option<u64>;

/// Calls `str::parse::<u64>`. The contract names the outcome.
#[verifier::external_body]
fn parse_u64(text: &str) -> (r: Option<u64>)
    ensures
        r == decimal_value(text@),
{
    text.parse::<u64>().ok()
}

/// The service runs in production unless the development flag is set to `1`
/// or to `true`, in any mix of upper and lower case.
pub open spec fn spec_production(dev_flag: Option<Seq<char>>) -> bool {
    match dev_flag {
        None => true,
        Some(s) => !(lowercase(s) == "1"@ || lowercase(s) == "true"@),
    }
}

/// Tells from the development flag whether the service runs in production.
pub fn production(dev_flag: Option<&str>) -> (p: bool)
    ensures
        p == spec_production(
            match dev_flag {
                Some(s) => Some(s@),
                None => None,
            },
        ),
{
    match dev_flag {
        None => true,
        Some(s) => {
            let lower = to_lowercase(s);
            !(same_text(lower.as_str(), "1") || same_text(lower.as_str(), "true"))
        },
    }
}

/// The port that a number stands for: the number itself if it is a port,
/// else the default.
pub open spec fn spec_port_or_default(number: Option<u64>) -> u16 {
    match number {
        Some(n) => if n <= u16::MAX {
            n as u16
        } else {
            DEFAULT_PORT
        },
        None => DEFAULT_PORT,
    }
}

/// Picks the port for the number that was read from the setting, if any was.
#[verifier::when_used_as_spec(spec_port_or_default)]
pub fn port_or_default(number: Option<u64>) -> (p: u16)
    ensures
        p == spec_port_or_default(number),
{
    match number {
        Some(n) => if n <= 65535 {
            n as u16
        } else {
            DEFAULT_PORT
        },
        None => DEFAULT_PORT,
    }
}

/// The port that a setting stands for: the number it holds if that is a
/// port, else the default.
pub open spec fn spec_port(setting: Option<Seq<char>>) -> u16 {
    match setting {
        Some(s) => spec_port_or_default(decimal_value(s)),
        None => DEFAULT_PORT,
    }
}

/// Reads the port to listen on.
pub fn port(setting: Option<&str>) -> (p: u16)
    ensures
        p == spec_port(
            match setting {
                Some(s) => Some(s@),
                None => None,
            },
        ),
{
    match setting {
        Some(s) => port_or_default(parse_u64(s)),
        None => DEFAULT_PORT,
    }
}

/// The delay in milliseconds that is put before and after each request:
/// none in production, else the one that is configured, if it reads as a number.
pub fn sim_latency(production: bool, setting: Option<&str>) -> (d: Option<u64>)
    ensures
        d == (if production {
            None
        } else {
            match setting {
                Some(s) => decimal_value(s@),
                None => None,
            }
        }),
{
    if production {
        return None;
    }
    match setting {
        Some(s) => parse_u64(s),
        None => None,
    }
}

} // verus!
