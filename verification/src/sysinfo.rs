//! What a Linux host tells of itself in the lines of `/etc/os-release` and
//! `/proc/cpuinfo`.

use crate::text::{
    field_after, has_prefix, parse_decimal, second_field, starts_with, strip, stripped, trim,
    trimmed, decimal_within,
};
use vstd::prelude::*;
use vstd::string::*;

verus! {

/// The lines as characters.
pub open spec fn lines_of(lines: Seq<String>) -> Seq<Seq<char>> {
    Seq::new(lines.len(), |i: int| lines[i]@)
}

/// The value of `key` in the lines of `os-release`: what stands after the
/// `=` of the first line that begins with `key`, without the quotes around
/// it. There is none where no line begins with `key`, or that line has no `=`.
pub open spec fn os_release_value(lines: Seq<Seq<char>>, key: Seq<char>) -> Option<Seq<char>>
    decreases lines.len(),
{
    if lines.len() == 0 {
        None
    } else if has_prefix(lines[0], key) {
        match second_field(lines[0], '=') {
            Some(value) => Some(stripped(value, '"')),
            None => None,
        }
    } else {
        os_release_value(lines.skip(1), key)
    }
}

/// Whether `r` is the text, or the lack of one, that `want` names.
pub open spec fn says(r: Option<String>, want: Option<Seq<char>>) -> bool {
    match r {
        Some(s) => want == Some(s@),
        None => want is None,
    }
}

/// The value of `key` in the lines of `os-release`.
pub fn get_os_release_key(lines: &Vec<String>, key: &str) -> (r: Option<String>)
    ensures
        says(r, os_release_value(lines_of(lines@), key@)),
{
    let ghost all = lines_of(lines@);
    let mut i: usize = 0;
    assert(all.skip(0) =~= all);
    while i < lines.len()
        invariant
            i <= lines.len(),
            all == lines_of(lines@),
            os_release_value(all.skip(i as int), key@) == os_release_value(all, key@),
        decreases lines.len() - i,
    {
        let ghost rest = all.skip(i as int);
        assert(rest[0] == lines@[i as int]@);
        assert(rest.skip(1) =~= all.skip(i + 1));
        let line = lines[i].as_str();
        if starts_with(line, key) {
            return match field_after(line, '=') {
                Some(value) => Some(strip(value, '"').to_owned()),
                None => None,
            };
        }
        i += 1;
    }
    None
}

/// The number of the processor that a line beginning with `processor` tells.
pub open spec fn processor_number(line: Seq<char>) -> Option<u8> {
    match second_field(line, ':') {
        Some(value) => match decimal_within(trimmed(value), 255) {
            Some(n) => Some(n as u8),
            None => None,
        },
        None => None,
    }
}

/// The value of `key` for processor `id` in the lines of `cpuinfo`, of which
/// those before are of processor `current`: what stands after the `:` of the
/// first line of processor `id` that begins with `key`, white space aside.
/// A line that begins with `processor` tells the processor of the lines from
/// it on. There is none where no such line is found, or where a line tells
/// no number after `processor` or no value after `key`.
pub open spec fn processor_value(
    lines: Seq<Seq<char>>,
    current: u8,
    id: u8,
    key: Seq<char>,
) -> Option<Seq<char>>
    decreases lines.len(),
{
    if lines.len() == 0 {
        None
    } else {
        let line = lines[0];
        let told = if has_prefix(line, "processor"@) {
            processor_number(line)
        } else {
            Some(current)
        };
        match told {
            None => None,
            Some(cpu) => if cpu == id && has_prefix(line, key) {
                match second_field(line, ':') {
                    Some(value) => Some(trimmed(value)),
                    None => None,
                }
            } else {
                processor_value(lines.skip(1), cpu, id, key)
            },
        }
    }
}

fn read_processor_number(line: &str) -> (r: Option<u8>)
    ensures
        r == processor_number(line@),
{
    match field_after(line, ':') {
        Some(value) => match parse_decimal(trim(value), 255) {
            Some(n) => Some(n as u8),
            None => None,
        },
        None => None,
    }
}

/// The value of `key` for processor `id` in the lines of `cpuinfo`.
pub fn get_processor_key(lines: &Vec<String>, id: u8, key: &str) -> (r: Option<String>)
    ensures
        says(r, processor_value(lines_of(lines@), 0, id, key@)),
{
    let ghost all = lines_of(lines@);
    let mut cpu: u8 = 0;
    let mut i: usize = 0;
    assert(all.skip(0) =~= all);
    while i < lines.len()
        invariant
            i <= lines.len(),
            all == lines_of(lines@),
            processor_value(all.skip(i as int), cpu, id, key@) == processor_value(
                all,
                0,
                id,
                key@,
            ),
        decreases lines.len() - i,
    {
        let ghost rest = all.skip(i as int);
        assert(rest[0] == lines@[i as int]@);
        assert(rest.skip(1) =~= all.skip(i + 1));
        let line = lines[i].as_str();
        if starts_with(line, "processor") {
            match read_processor_number(line) {
                Some(n) => {
                    cpu = n;
                },
                None => {
                    return None;
                },
            }
        }
        if cpu == id && starts_with(line, key) {
            return match field_after(line, ':') {
                Some(value) => Some(trim(value).to_owned()),
                None => None,
            };
        }
        i += 1;
    }
    None
}

} // verus!
