//! Four-character codes: the names of the controller's keys and of its wire
//! types, four ASCII bytes packed big-endian into 32 bits.

use four_char_code::{FccConversionError, FourCharCode};
use vstd::prelude::*;
use vstd::string::*;

verus! {

/// Why a text is no four-character code.
#[derive(Copy, Clone, Debug, PartialEq, Eq, Structural)]
pub enum KeyFault {
    /// More than four bytes.
    TooLong,
    /// Fewer than four bytes.
    TooShort,
    /// A byte above 0x7f.
    InvalidChar,
}

/// The number that four bytes write, most significant byte first.
pub open spec fn be32(b: Seq<u8>) -> u32
    recommends
        b.len() == 4,
{
    (((b[0] as int * 256 + b[1] as int) * 256 + b[2] as int) * 256 + b[3] as int) as u32
}

/// `b` with each NUL byte that only NUL bytes follow replaced by a space.
pub open spec fn space_padded(b: Seq<u8>) -> Seq<u8> {
    Seq::new(
        b.len(),
        |i: int|
            if b[i] == 0 && (forall|j: int| i < j < b.len() ==> b[j] == 0) {
                0x20u8
            } else {
                b[i]
            },
    )
}

/// The code that the bytes `b` name: exactly four bytes, none above 0x7f,
/// trailing NUL bytes read as spaces.
pub open spec fn code_of_bytes(b: Seq<u8>) -> Result<u32, KeyFault> {
    if b.len() < 4 {
        Err(KeyFault::TooShort)
    } else if b.len() > 4 {
        Err(KeyFault::TooLong)
    } else if exists|i: int| 0 <= i < 4 && b[i] > 0x7f {
        Err(KeyFault::InvalidChar)
    } else {
        Ok(be32(space_padded(b)))
    }
}

/// The code that the text `s` names, by its UTF-8 bytes.
pub open spec fn code_of(s: Seq<char>) -> Result<u32, KeyFault> {
    code_of_bytes(vstd::utf8::encode_utf8(s))
}

/// Calls `FourCharCode::from_str` and hands out the code's number, or which of
/// the crate's three faults it found. The crate takes the text's UTF-8 bytes,
/// asks for exactly four, turns the NUL bytes at the end into spaces, refuses a
/// byte above 0x7f and packs the four big-endian.
#[verifier::external_body]
fn fcc_from_str(s: &str) -> (r: Result<u32, KeyFault>)
    ensures
        r == code_of(s@),
{
    match FourCharCode::from_str(s) {
        Ok(code) => Ok(code.as_u32()),
        Err(FccConversionError::TooLong) => Err(KeyFault::TooLong),
        Err(FccConversionError::TooShort) => Err(KeyFault::TooShort),
        Err(FccConversionError::InvalidChar) => Err(KeyFault::InvalidChar),
    }
}

/// The four-character code that `s` names.
pub fn key_code(s: &str) -> (r: Result<u32, KeyFault>)
    ensures
        r == code_of(s@),
{
    fcc_from_str(s)
}

/// For four ASCII characters, none of them NUL, the code is the four
/// characters packed big-endian.
pub proof fn lemma_code_of_ascii(s: Seq<char>)
    requires
        s.len() == 4,
        forall|i: int| 0 <= i < 4 ==> '\0' < #[trigger] s[i] <= '\u{7f}',
    ensures
        code_of(s) == Ok::<u32, KeyFault>(
            be32(seq![s[0] as u8, s[1] as u8, s[2] as u8, s[3] as u8]),
        ),
{
    assert(vstd::utf8::is_ascii_chars(s));
    vstd::utf8::is_ascii_chars_encode_utf8(s);
    let b = vstd::utf8::encode_utf8(s);
    assert(b.len() == 4);
    assert forall|i: int| 0 <= i < 4 implies b[i] == s[i] as u8 && 0 < b[i] <= 0x7f by {}
    assert(space_padded(b) =~= b);
    assert(b =~= seq![s[0] as u8, s[1] as u8, s[2] as u8, s[3] as u8]);
}

/// The four bytes of `code`, most significant first.
pub open spec fn code_bytes(code: u32) -> Seq<u8> {
    seq![
        (code / 0x100_0000) as u8,
        (code / 0x1_0000 % 256) as u8,
        (code / 0x100 % 256) as u8,
        (code % 256) as u8,
    ]
}

/// How one byte of a code is shown between quotes: itself where it is
/// printable, a quote with a backslash before it, and else U+FFFD.
pub open spec fn shown_byte(b: u8) -> Seq<char> {
    if b <= 0x1f || b >= 0x7f {
        seq!['\u{fffd}']
    } else if b == 0x22 {
        seq!['\\', '"']
    } else {
        seq![b as char]
    }
}

/// How a code is shown: its four characters between quotes, trailing NUL
/// bytes as spaces. A code with a byte above 0x7f is not shown.
pub open spec fn shown_code(code: u32) -> Option<Seq<char>> {
    let b = space_padded(code_bytes(code));
    if exists|i: int| 0 <= i < 4 && code_bytes(code)[i] > 0x7f {
        None
    } else {
        Some(
            "FourCharCode(\""@ + shown_byte(b[0]) + shown_byte(b[1]) + shown_byte(b[2])
                + shown_byte(b[3]) + "\")"@,
        )
    }
}

/// Calls `FourCharCode::new` and formats the code with the crate's `Debug`.
/// The crate refuses a code with a byte above 0x7f. It writes the others as
/// `FourCharCode("....")`, the four bytes between the quotes in order, the
/// NUL bytes at the end as spaces, a quote with a backslash before it and
/// every byte that is not printable as U+FFFD.
#[verifier::external_body]
fn fcc_debug(code: u32) -> (r: Option<String>)
    ensures
        match r {
            Some(s) => shown_code(code) == Some(s@),
            None => shown_code(code) is None,
        },
{
    match FourCharCode::new(code) {
        Ok(fcc) => Some(format!("{:?}", fcc)),
        Err(_) => None,
    }
}

/// How `code` is shown in a message.
pub fn show_code(code: u32) -> (r: Option<String>)
    ensures
        match r {
            Some(s) => shown_code(code) == Some(s@),
            None => shown_code(code) is None,
        },
{
    fcc_debug(code)
}

} // verus!
