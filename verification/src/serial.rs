//! The serial-identification reply parser: the device answers with seven
//! prefix bytes followed by text; the serial number is found on the line
//! whose comma-separated record has exactly three fields with a second
//! field of "4".

use vstd::prelude::*;

use crate::text::{find_char, lemma_find_char, spec_find_char, spec_trim, str_eq, trim,
    utf8_lossy, utf8_lossy_of};

verus! {

/// The serial a single line yields, if any: the line must split by
/// commas into exactly three fields, the second field must trim to "4",
/// and the trimmed third field - the serial - must be non-empty.
pub open spec fn spec_line_serial(line: Seq<char>) -> Option<Seq<char>> {
    let c1 = spec_find_char(line, ',', 0);
    let c2 = spec_find_char(line, ',', c1 + 1);
    let c3 = spec_find_char(line, ',', c2 + 1);
    if c1 == line.len() || c2 == line.len() || c3 != line.len() {
        None
    } else {
        let second = spec_trim(line.subrange(c1 + 1, c2));
        let third = spec_trim(line.subrange(c2 + 1, line.len() as int));
        if second == "4"@ && third.len() > 0 {
            Some(third)
        } else {
            None
        }
    }
}

/// The serial found in the text from position `start` on: lines are
/// separated by line feeds, a carriage return before the line feed is
/// dropped, and the first line that yields a serial wins.
pub open spec fn spec_serial_in_text(s: Seq<char>, start: int) -> Option<Seq<char>>
    decreases s.len() - start,
    when 0 <= start
    via spec_serial_in_text_decreases
{
    if start >= s.len() {
        None
    } else {
        let nl = spec_find_char(s, '\n', start);
        let end = if nl > start && s[nl - 1] == '\r' {
            nl - 1
        } else {
            nl
        };
        match spec_line_serial(s.subrange(start, end)) {
            Some(serial) => Some(serial),
            None => if nl >= s.len() {
                None
            } else {
                spec_serial_in_text(s, nl + 1)
            },
        }
    }
}

#[via_fn]
proof fn spec_serial_in_text_decreases(s: Seq<char>, start: int) {
    if 0 <= start < s.len() {
        lemma_find_char(s, '\n', start);
    }
}

/// The serial a detection reply payload yields: payloads shorter than
/// eight bytes fail; otherwise everything after the seven prefix bytes
/// is decoded as lossy UTF-8 and searched line by line.
pub open spec fn spec_parse_serial(payload: Seq<u8>) -> Option<Seq<char>> {
    if payload.len() < 8 {
        None
    } else {
        spec_serial_in_text(utf8_lossy_of(payload.skip(7)), 0)
    }
}

/// The serial one line yields, if any; the line is `s[ls..le]`.
fn line_serial(s: &str, ls: usize, le: usize) -> (r: Option<String>)
    requires
        ls <= le <= s@.len(),
    ensures
        match r {
            Some(serial) => spec_line_serial(s@.subrange(ls as int, le as int)) == Some(serial@),
            None => spec_line_serial(s@.subrange(ls as int, le as int)) is None,
        },
{
    let line = s.substring_char(ls, le);
    let len = line.unicode_len();
    let c1 = find_char(line, ',', 0);
    if c1 == len {
        return None;
    }
    let c2 = find_char(line, ',', c1 + 1);
    if c2 == len {
        return None;
    }
    let c3 = find_char(line, ',', c2 + 1);
    if c3 != len {
        return None;
    }
    let second = trim(line.substring_char(c1 + 1, c2));
    if !str_eq(second, "4") {
        return None;
    }
    let third = trim(line.substring_char(c2 + 1, len));
    if third.unicode_len() == 0 {
        return None;
    }
    Some(String::from_str(third))
}

/// Extracts the serial number from a detection reply payload: skips the
/// seven prefix bytes, decodes the rest as lossy UTF-8, and returns the
/// trimmed third field of the first line whose three-field record has a
/// second field of "4".
pub fn parse_serial_number(payload: &[u8]) -> (r: Option<String>)
    ensures
        match r {
            Some(serial) => spec_parse_serial(payload@) == Some(serial@),
            None => spec_parse_serial(payload@) is None,
        },
{
    if payload.len() < 8 {
        return None;
    }
    let text = utf8_lossy(vstd::slice::slice_subrange(payload, 7, payload.len()));
    proof {
        assert(payload@.subrange(7, payload@.len() as int) =~= payload@.skip(7));
    }
    let s = text.as_str();
    let n = s.unicode_len();
    let mut start: usize = 0;
    while start < n
        invariant
            start <= n,
            n == s@.len(),
            payload@.len() >= 8,
            s@ == utf8_lossy_of(payload@.skip(7)),
            spec_serial_in_text(s@, 0) == spec_serial_in_text(s@, start as int),
        decreases n - start,
    {
        let nl = find_char(s, '\n', start);
        let end: usize = if nl > start && s.get_char(nl - 1) == '\r' {
            nl - 1
        } else {
            nl
        };
        let found = line_serial(s, start, end);
        if let Some(serial) = found {
            return Some(serial);
        }
        proof {
            lemma_find_char(s@, '\n', start as int);
        }
        if nl >= n {
            return None;
        }
        start = nl + 1;
    }
    None
}

} // verus!
