//! Log levels shared by the game and the core, with their wire encoding as `u32`.

use crate::text::{decimal, push_decimal};
use vstd::prelude::*;
use vstd::std_specs::convert::FromSpecImpl;
use vstd::string::StringExecFns;

verus! {

/// The severity of a log message.
#[derive(Clone, Copy, Debug, PartialEq, Eq, Hash, Structural)]
pub enum LogLevel {
    /// The "error" level: very serious errors.
    Error,
    /// The "warn" level: hazardous situations.
    Warn,
    /// The "info" level: useful information.
    Info,
    /// The "debug" level: lower priority information.
    Debug,
    /// The "trace" level: very low priority, often extremely verbose, information.
    Trace,
}

/// The level encoded by `value`, if any.
pub open spec fn level_of_code(value: u32) -> Option<LogLevel> {
    if value == 1 {
        Some(LogLevel::Error)
    } else if value == 2 {
        Some(LogLevel::Warn)
    } else if value == 3 {
        Some(LogLevel::Info)
    } else if value == 4 {
        Some(LogLevel::Debug)
    } else if value == 5 {
        Some(LogLevel::Trace)
    } else {
        None
    }
}

/// The message of the error for a value that encodes no level.
pub open spec fn invalid_level_text(value: u32) -> Seq<char> {
    "Invalid LogLevel value: "@ + decimal(value as nat) + "."@
}

impl LogLevel {
    /// The wire encoding: 1 for [`LogLevel::Error`] up to 5 for [`LogLevel::Trace`].
    pub open spec fn spec_code(self) -> u32 {
        match self {
            LogLevel::Error => 1,
            LogLevel::Warn => 2,
            LogLevel::Info => 3,
            LogLevel::Debug => 4,
            LogLevel::Trace => 5,
        }
    }

    /// The display name, in capitals.
    pub open spec fn spec_name(self) -> Seq<char> {
        match self {
            LogLevel::Error => seq!['E', 'R', 'R', 'O', 'R'],
            LogLevel::Warn => seq!['W', 'A', 'R', 'N'],
            LogLevel::Info => seq!['I', 'N', 'F', 'O'],
            LogLevel::Debug => seq!['D', 'E', 'B', 'U', 'G'],
            LogLevel::Trace => seq!['T', 'R', 'A', 'C', 'E'],
        }
    }

    /// Decodes a level from its wire encoding.
    pub fn try_from_u32(value: u32) -> (r: Result<LogLevel, String>)
        ensures
            level_of_code(value) matches Some(level) ==> r == Ok::<LogLevel, String>(level),
            level_of_code(value) is None ==> (r matches Err(m) && m@ == invalid_level_text(
                value,
            )),
    {
        match value {
            1 => Ok(LogLevel::Error),
            2 => Ok(LogLevel::Warn),
            3 => Ok(LogLevel::Info),
            4 => Ok(LogLevel::Debug),
            5 => Ok(LogLevel::Trace),
            _ => {
                let mut text = "Invalid LogLevel value: ".to_owned();
                push_decimal(&mut text, value as u64);
                text.append(".");
                proof {
                    reveal_strlit("Invalid LogLevel value: ");
                    reveal_strlit(".");
                }
                Err(text)
            },
        }
    }

    /// The display name, in capitals.
    pub fn as_str(&self) -> (r: &'static str)
        ensures
            r@ == self.spec_name(),
    {
        proof {
            reveal_strlit("ERROR");
            reveal_strlit("WARN");
            reveal_strlit("INFO");
            reveal_strlit("DEBUG");
            reveal_strlit("TRACE");
        }
        match self {
            LogLevel::Error => "ERROR",
            LogLevel::Warn => "WARN",
            LogLevel::Info => "INFO",
            LogLevel::Debug => "DEBUG",
            LogLevel::Trace => "TRACE",
        }
    }

    /// The display name, in capitals, as an owned string.
    pub fn to_string(&self) -> (r: String)
        ensures
            r@ == self.spec_name(),
    {
        self.as_str().to_owned()
    }
}

impl From<LogLevel> for u32 {
    fn from(level: LogLevel) -> (r: u32) {
        match level {
            LogLevel::Error => 1,
            LogLevel::Warn => 2,
            LogLevel::Info => 3,
            LogLevel::Debug => 4,
            LogLevel::Trace => 5,
        }
    }
}

impl FromSpecImpl<LogLevel> for u32 {
    open spec fn obeys_from_spec() -> bool {
        true
    }

    open spec fn from_spec(level: LogLevel) -> u32 {
        level.spec_code()
    }
}

/// Encoding a level and decoding the code gives the level back, and every code that decodes
/// encodes back to itself.
pub proof fn lemma_code_round_trip(level: LogLevel, value: u32)
    ensures
        level_of_code(level.spec_code()) == Some(level),
        level_of_code(value) matches Some(decoded) ==> decoded.spec_code() == value,
        level_of_code(value) is Some <==> 1 <= value <= 5,
{
}

} // verus!
