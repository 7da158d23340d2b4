use vstd::prelude::*;
use crate::config::{parse_u64_bytes, parse_u64_range};

verus! {

/// The verbosity of the log output, from most severe to most verbose.
#[derive(Clone, Copy, PartialEq, Eq, Structural, Debug)]
pub enum LogLevel {
    Error,
    Warn,
    Info,
    Debug,
    Trace,
}

/// An upper-case ASCII letter folded to lower case; every other byte kept.
pub open spec fn ascii_lower(b: u8) -> u8 {
    if 0x41 <= b && b <= 0x5a {
        (b + 0x20) as u8
    } else {
        b
    }
}

/// The bytes with upper-case ASCII letters folded to lower case.
pub open spec fn lower_bytes(s: Seq<u8>) -> Seq<u8> {
    Seq::new(s.len(), |i: int| ascii_lower(s[i]))
}

/// The level a name denotes, compared without regard to ASCII case.
pub open spec fn level_name_model(s: Seq<u8>) -> Option<LogLevel> {
    let l = lower_bytes(s);
    if l == seq![0x65u8, 0x72u8, 0x72u8, 0x6fu8, 0x72u8] {
        Some(LogLevel::Error)
    } else if l == seq![0x77u8, 0x61u8, 0x72u8, 0x6eu8] {
        Some(LogLevel::Warn)
    } else if l == seq![0x69u8, 0x6eu8, 0x66u8, 0x6fu8] {
        Some(LogLevel::Info)
    } else if l == seq![0x64u8, 0x65u8, 0x62u8, 0x75u8, 0x67u8] {
        Some(LogLevel::Debug)
    } else if l == seq![0x74u8, 0x72u8, 0x61u8, 0x63u8, 0x65u8] {
        Some(LogLevel::Trace)
    } else {
        None
    }
}

/// The level a setting's bytes denote: the numerals one to five, from most
/// severe to most verbose, or a level name compared without regard to ASCII
/// case; anything else denotes no level.
pub open spec fn level_of_bytes(s: Seq<u8>) -> Option<LogLevel> {
    match parse_u64_bytes(s) {
        Some(n) => if n == 1 {
            Some(LogLevel::Error)
        } else if n == 2 {
            Some(LogLevel::Warn)
        } else if n == 3 {
            Some(LogLevel::Info)
        } else if n == 4 {
            Some(LogLevel::Debug)
        } else if n == 5 {
            Some(LogLevel::Trace)
        } else {
            level_name_model(s)
        },
        None => level_name_model(s),
    }
}

/// The bytes with upper-case ASCII letters folded to lower case.
fn lower_vec(v: &Vec<u8>) -> (r: Vec<u8>)
    ensures
        r@ == lower_bytes(v@),
{
    let mut r: Vec<u8> = Vec::new();
    let mut i: usize = 0;
    while i < v.len()
        invariant
            i <= v@.len(),
            r@.len() == i,
            forall|j: int| 0 <= j < i ==> r@[j] == ascii_lower(#[trigger] v@[j]),
        decreases v@.len() - i,
    {
        let b = v[i];
        if 0x41 <= b && b <= 0x5a {
            r.push(b + 0x20);
        } else {
            r.push(b);
        }
        i += 1;
    }
    proof {
        assert(r@ =~= lower_bytes(v@));
    }
    r
}

/// Whether the bytes are the given four, in order.
fn is_word4(v: &Vec<u8>, b0: u8, b1: u8, b2: u8, b3: u8) -> (r: bool)
    ensures
        r == (v@ == seq![b0, b1, b2, b3]),
{
    if v.len() != 4 {
        return false;
    }
    let r = v[0] == b0 && v[1] == b1 && v[2] == b2 && v[3] == b3;
    proof {
        if r {
            assert(v@ =~= seq![b0, b1, b2, b3]);
        }
    }
    r
}

/// Whether the bytes are the given five, in order.
fn is_word5(v: &Vec<u8>, b0: u8, b1: u8, b2: u8, b3: u8, b4: u8) -> (r: bool)
    ensures
        r == (v@ == seq![b0, b1, b2, b3, b4]),
{
    if v.len() != 5 {
        return false;
    }
    let r = v[0] == b0 && v[1] == b1 && v[2] == b2 && v[3] == b3 && v[4] == b4;
    proof {
        if r {
            assert(v@ =~= seq![b0, b1, b2, b3, b4]);
        }
    }
    r
}

/// The level a name denotes, compared without regard to ASCII case.
fn match_level_name(bytes: &Vec<u8>) -> (r: Option<LogLevel>)
    ensures
        r == level_name_model(bytes@),
{
    let lower = lower_vec(bytes);
    if is_word5(&lower, 0x65, 0x72, 0x72, 0x6f, 0x72) {
        Some(LogLevel::Error)
    } else if is_word4(&lower, 0x77, 0x61, 0x72, 0x6e) {
        Some(LogLevel::Warn)
    } else if is_word4(&lower, 0x69, 0x6e, 0x66, 0x6f) {
        Some(LogLevel::Info)
    } else if is_word5(&lower, 0x64, 0x65, 0x62, 0x75, 0x67) {
        Some(LogLevel::Debug)
    } else if is_word5(&lower, 0x74, 0x72, 0x61, 0x63, 0x65) {
        Some(LogLevel::Trace)
    } else {
        None
    }
}

/// Parses a verbosity setting: a numeral from one to five or a level name,
/// the name compared without regard to ASCII case.
pub fn parse_log_level(bytes: &Vec<u8>) -> (r: Option<LogLevel>)
    ensures
        r == level_of_bytes(bytes@),
{
    proof {
        assert(bytes@.subrange(0, bytes@.len() as int) =~= bytes@);
    }
    match parse_u64_range(bytes, 0, bytes.len()) {
        Some(n) => {
            if n == 1 {
                Some(LogLevel::Error)
            } else if n == 2 {
                Some(LogLevel::Warn)
            } else if n == 3 {
                Some(LogLevel::Info)
            } else if n == 4 {
                Some(LogLevel::Debug)
            } else if n == 5 {
                Some(LogLevel::Trace)
            } else {
                match_level_name(bytes)
            }
        },
        None => match_level_name(bytes),
    }
}

/// The model of an optional setting string.
pub open spec fn opt_str_model(o: Option<String>) -> Option<Seq<char>> {
    match o {
        Some(s) => Some(s@),
        None => None,
    }
}

/// The level a setting string denotes.
pub open spec fn level_of_str(s: Seq<char>) -> Option<LogLevel> {
    level_of_bytes(vstd::utf8::encode_utf8(s))
}

/// The verbosity the process runs at, given the setting from the process
/// environment and the one from the variable file: the default is `Info`;
/// a valid environment setting overrides it, and a valid variable-file
/// setting overrides both. An invalid setting is ignored.
pub open spec fn resolved_level(env: Option<Seq<char>>, dotenv: Option<Seq<char>>) -> LogLevel {
    let base = match env {
        Some(s) => match level_of_str(s) {
            Some(l) => l,
            None => LogLevel::Info,
        },
        None => LogLevel::Info,
    };
    match dotenv {
        Some(s) => match level_of_str(s) {
            Some(l) => l,
            None => base,
        },
        None => base,
    }
}

/// Resolves the verbosity from the two optional settings, the variable-file
/// one overriding the environment one, both defaulting to `Info`.
pub fn resolve_log_level(env_value: &Option<String>, dot_env_value: &Option<String>) -> (l:
    LogLevel)
    ensures
        l == resolved_level(
            match env_value {
                Some(s) => Some(s@),
                None => None,
            },
            match dot_env_value {
                Some(s) => Some(s@),
                None => None,
            },
        ),
{
    let mut level = LogLevel::Info;
    match env_value {
        Some(s) => {
            let bytes = s.as_str().as_bytes_vec();
            match parse_log_level(&bytes) {
                Some(l) => {
                    level = l;
                },
                None => {},
            }
        },
        None => {},
    }
    match dot_env_value {
        Some(s) => {
            let bytes = s.as_str().as_bytes_vec();
            match parse_log_level(&bytes) {
                Some(l) => {
                    level = l;
                },
                None => {},
            }
        },
        None => {},
    }
    level
}

} // verus!
