//! Decoding of command-line values into the server's configuration.
use vstd::prelude::*;

verus! {

/// A TCP port number.
pub type TcpPort = u16;

/// The port used when none, or an unreadable one, is given.
pub const DEFAULT_PORT: u16 = 8080;

/// The number of warm-up cycles used when none, or an unreadable one, is
/// given.
pub const DEFAULT_WARMUP_CYCLES: u16 = 1;

/// How chatty the server's log output is.
#[derive(Debug, Clone, Copy, PartialEq, Eq, Structural)]
pub enum VerbosityLevel {
    DEBUG,
    INFO,
    WARN,
    ERROR,
}

/// True when `c` is an ASCII decimal digit.
pub open spec fn is_digit(c: char) -> bool {
    '0' <= c && c <= '9'
}

/// Every character of `d` is a decimal digit.
pub open spec fn all_digits(d: Seq<char>) -> bool {
    forall|i: int| 0 <= i < d.len() ==> is_digit(#[trigger] d[i])
}

/// The value of a string of decimal digits, most significant first.
pub open spec fn decimal_value(d: Seq<char>) -> nat
    decreases d.len(),
{
    if d.len() == 0 {
        0
    } else {
        decimal_value(d.drop_last()) * 10 + ((d.last() as u32 - '0' as u32) as nat)
    }
}

/// What `u16`'s `FromStr` accepts: an optional `+` followed by one or more
/// decimal digits whose value fits in 16 bits.
pub open spec fn parsed_u16(s: Seq<char>) -> Option<u16> {
    let d = if s.len() > 0 && s[0] == '+' {
        s.drop_first()
    } else {
        s
    };
    if d.len() > 0 && all_digits(d) && decimal_value(d) <= u16::MAX {
        Some(decimal_value(d) as u16)
    } else {
        None
    }
}

/// The port that a command-line value selects.
pub open spec fn port_of(o: Option<Seq<char>>) -> u16 {
    match o {
        Some(s) => match parsed_u16(s) {
            Some(p) => p,
            None => DEFAULT_PORT,
        },
        None => DEFAULT_PORT,
    }
}

/// The number of warm-up cycles that a command-line value selects.
pub open spec fn warmup_cycles_of(o: Option<Seq<char>>) -> u16 {
    match o {
        Some(s) => match parsed_u16(s) {
            Some(c) => c,
            None => DEFAULT_WARMUP_CYCLES,
        },
        None => DEFAULT_WARMUP_CYCLES,
    }
}

/// The verbosity that a count of `-v` flags selects.
pub open spec fn verbosity_of(occ: u64) -> VerbosityLevel {
    if occ == 0 {
        VerbosityLevel::ERROR
    } else if occ == 1 {
        VerbosityLevel::WARN
    } else if occ == 2 {
        VerbosityLevel::INFO
    } else {
        VerbosityLevel::DEBUG
    }
}

/// Relies on `str::parse::<u16>` (`u16`'s `FromStr`), documented to accept
/// an optional `+` sign followed by decimal digits, and to fail on anything
/// else or on a value that overflows.
#[verifier::external_body]
fn parse_u16(s: &str) -> (r: Option<u16>)
    ensures
        r == parsed_u16(s@),
{
    s.parse::<u16>().ok()
}

/// Turns raw command-line values into configuration values.
pub struct ArgsParser;

impl ArgsParser {
    /// The listening port: the given value when it is a valid port number,
    /// else the default port.
    pub fn to_port(o: Option<&str>) -> (r: TcpPort)
        ensures
            r == port_of(
                match o {
                    Some(s) => Some(s@),
                    None => None,
                },
            ),
    {
        match o {
            Some(s) => match parse_u16(s) {
                Some(p) => p,
                None => DEFAULT_PORT,
            },
            None => DEFAULT_PORT,
        }
    }

    /// The number of warm-up cycles: the given value when it is a valid
    /// count, else one cycle.
    pub fn to_warmup_cycles(o: Option<&str>) -> (r: u16)
        ensures
            r == warmup_cycles_of(
                match o {
                    Some(s) => Some(s@),
                    None => None,
                },
            ),
    {
        match o {
            Some(s) => match parse_u16(s) {
                Some(c) => c,
                None => DEFAULT_WARMUP_CYCLES,
            },
            None => DEFAULT_WARMUP_CYCLES,
        }
    }

    /// The verbosity for a number of `-v` flags: none gives errors only, each
    /// further flag one level more, saturating at debug.
    pub fn to_verbosity_level(occ: u64) -> (r: VerbosityLevel)
        ensures
            r == verbosity_of(occ),
    {
        match occ {
            0 => VerbosityLevel::ERROR,
            1 => VerbosityLevel::WARN,
            2 => VerbosityLevel::INFO,
            _ => VerbosityLevel::DEBUG,
        }
    }
}

} // verus!
