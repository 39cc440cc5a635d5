//! Errors as text.

use super::code::{show_code, shown_code, KeyFault};
use super::conv::CodecError;
use super::SmcError;
use crate::text::{decimal, decimal_digits, signed_decimal, signed_digits};
use vstd::prelude::*;
use vstd::string::*;

verus! {

/// A code as it stands in a message: as the code is shown, and as its number
/// where it is not shown.
pub open spec fn code_text(code: u32) -> Seq<char> {
    match shown_code(code) {
        Some(s) => s,
        None => decimal_digits(code as nat),
    }
}

fn code_string(code: u32) -> (s: String)
    ensures
        s@ == code_text(code),
{
    match show_code(code) {
        Some(s) => s,
        None => decimal(code),
    }
}

/// What a codec error says.
pub open spec fn codec_text(e: CodecError) -> Seq<char> {
    match e {
        CodecError::TypeMismatch(tag) => "Cannot convert a value of type "@ + code_text(tag),
        CodecError::WriteNotSupported => "You can't write a RawFan type"@,
    }
}

/// What a key fault says.
pub open spec fn fault_text(f: KeyFault) -> Seq<char> {
    match f {
        KeyFault::TooLong => "four char code is too long"@,
        KeyFault::TooShort => "four char code is too short"@,
        KeyFault::InvalidChar => "invalid char in four char code"@,
    }
}

/// What an error says.
pub open spec fn message_of(e: SmcError) -> Seq<char> {
    match e {
        SmcError::DriverNotFound => "Driver not found"@,
        SmcError::FailedToOpen => "Failed to open driver"@,
        SmcError::KeyNotFound(code) => "SMC Key "@ + code_text(code) + " not found"@,
        SmcError::NotPrivileged =>
            "Not enough privileges to perform this action, are you running on root?"@,
        SmcError::UnsafeFanSpeed => "Unsafe fan speed"@,
        SmcError::Unknown(io_res, smc_res) => "Unknown error: IOKit terminated with code "@
            + signed_digits(io_res as int) + " and SMC result "@ + decimal_digits(smc_res as nat)
            + "."@,
        SmcError::Sysctl(errno) => "sysctl() call failed with errno "@ + signed_digits(
            errno as int,
        ),
        SmcError::Codec(c) => codec_text(c),
        SmcError::Key(f) => fault_text(f),
    }
}

impl CodecError {
    /// What the error says.
    pub fn message(&self) -> (s: String)
        ensures
            s@ == codec_text(*self),
    {
        match self {
            CodecError::TypeMismatch(tag) => {
                let mut s = String::from_str("Cannot convert a value of type ");
                let code = code_string(*tag);
                s.append(code.as_str());
                s
            },
            CodecError::WriteNotSupported => String::from_str("You can't write a RawFan type"),
        }
    }
}

impl KeyFault {
    /// What the fault says.
    pub fn message(&self) -> (s: String)
        ensures
            s@ == fault_text(*self),
    {
        match self {
            KeyFault::TooLong => String::from_str("four char code is too long"),
            KeyFault::TooShort => String::from_str("four char code is too short"),
            KeyFault::InvalidChar => String::from_str("invalid char in four char code"),
        }
    }
}

impl SmcError {
    /// What the error says.
    pub fn message(&self) -> (s: String)
        ensures
            s@ == message_of(*self),
    {
        match self {
            SmcError::DriverNotFound => String::from_str("Driver not found"),
            SmcError::FailedToOpen => String::from_str("Failed to open driver"),
            SmcError::KeyNotFound(code) => {
                let mut s = String::from_str("SMC Key ");
                let text = code_string(*code);
                s.append(text.as_str());
                s.append(" not found");
                s
            },
            SmcError::NotPrivileged => String::from_str(
                "Not enough privileges to perform this action, are you running on root?",
            ),
            SmcError::UnsafeFanSpeed => String::from_str("Unsafe fan speed"),
            SmcError::Unknown(io_res, smc_res) => {
                let mut s = String::from_str("Unknown error: IOKit terminated with code ");
                let a = signed_decimal(*io_res);
                s.append(a.as_str());
                s.append(" and SMC result ");
                let b = decimal(*smc_res as u32);
                s.append(b.as_str());
                s.append(".");
                s
            },
            SmcError::Sysctl(errno) => {
                let mut s = String::from_str("sysctl() call failed with errno ");
                let a = signed_decimal(*errno);
                s.append(a.as_str());
                s
            },
            SmcError::Codec(c) => c.message(),
            SmcError::Key(f) => f.message(),
        }
    }
}

} // verus!
