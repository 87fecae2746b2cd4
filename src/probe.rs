use vstd::prelude::*;
use vstd::string::StringExecFns;

verus! {

/// The stage of the probe's start-up sequence that failed.
#[derive(Debug, Clone, Copy, PartialEq, Eq, Structural)]
pub enum ProbeFailure {
    /// The API entry point could not be loaded.
    LoadEntry,
    /// The top-level context could not be created at the requested level.
    CreateInstance,
    /// The physical devices could not be enumerated.
    EnumerateDevices,
    /// The logical device could not be created.
    CreateDevice,
}

impl ProbeFailure {
    pub open spec fn code(&self) -> int {
        match self {
            ProbeFailure::LoadEntry => -21023,
            ProbeFailure::CreateInstance => -21024,
            ProbeFailure::EnumerateDevices => -21025,
            ProbeFailure::CreateDevice => -21026,
        }
    }

    /// The exit code with which the probe reports this failure.
    pub fn exit_code(&self) -> (r: i32)
        ensures
            r == self.code(),
    {
        match self {
            ProbeFailure::LoadEntry => -21023,
            ProbeFailure::CreateInstance => -21024,
            ProbeFailure::EnumerateDevices => -21025,
            ProbeFailure::CreateDevice => -21026,
        }
    }
}

/// The argument that puts the program in probe mode; the API version follows it.
pub const PROBE_MODE: &'static str = "test-app";

pub open spec fn is_decimal_digit(c: char) -> bool {
    '0' <= c <= '9'
}

/// The number that the decimal digits `s` write.
pub open spec fn decimal_value(s: Seq<char>) -> int
    decreases s.len(),
{
    if s.len() == 0 {
        0
    } else {
        decimal_value(s.drop_last()) * 10 + (s.last() as int - '0' as int)
    }
}

/// What parsing `s` as a `u32` gives: an optional `+` followed by at least one
/// decimal digit and nothing else, with a value that fits.
pub open spec fn parsed_u32(s: Seq<char>) -> Option<u32> {
    let digits = if s.len() > 0 && s[0] == '+' {
        s.drop_first()
    } else {
        s
    };
    if digits.len() > 0 && (forall|i: int| 0 <= i < digits.len() ==> is_decimal_digit(#[trigger] digits[i]))
        && decimal_value(digits) <= u32::MAX {
        Some(decimal_value(digits) as u32)
    } else {
        None
    }
}

/// Relies on `u32::from_str`: an optional `+` sign followed by decimal digits
/// only, with a value that fits in a `u32`, parses to that value; any other
/// text is an error.
#[verifier::external_body]
fn parse_u32(s: &str) -> (r: Option<u32>)
    ensures
        r == parsed_u32(s@),
{
    <u32 as std::str::FromStr>::from_str(s).ok()
}

/// The API version to probe where `args` (the program's arguments, its own
/// path first) ask for probe mode: exactly two arguments after the path, the
/// first `PROBE_MODE` and the second a number.
pub fn probe_request(args: &Vec<String>) -> (r: Option<u32>)
    ensures
        r == (if args@.len() == 3 && args@[1]@ == PROBE_MODE@ {
            parsed_u32(args@[2]@)
        } else {
            None
        }),
{
    if args.len() == 3 && args[1] == String::from_str(PROBE_MODE) {
        parse_u32(args[2].as_str())
    } else {
        None
    }
}

} // verus!
