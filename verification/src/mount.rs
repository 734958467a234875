//! Mount-table inspection: parsing of `/proc/mounts`-style content into
//! mount entries. Reading the table itself is the caller's business;
//! everything here works on the text read.

use vstd::prelude::*;
use vstd::string::{StrSliceExecFns, StringExecFns, StringSliceAdditionalSpecFns};
use vstd::utf8::{decode_utf8, encode_utf8, valid_utf8};
use crate::strutil::{spec_split, split_string, string_from_utf8, strings_view};

verus! {

/// An entry of the mount table.
#[derive(Debug)]
pub struct MountInfo {
    /// What is mounted.
    pub source: String,
    /// Where it is mounted.
    pub dest: String,
    /// The filesystem type.
    pub fstype: String,
    /// The mount options.
    pub options: Vec<String>,
}

/// Why a mount-table line was rejected.
#[derive(Debug)]
pub struct MountParseError {
    /// The reason.
    pub why: String,
}

/// ASCII whitespace, as it separates mount-table fields.
pub open spec fn is_space(c: char) -> bool {
    c == ' ' || c == '\t' || c == '\n' || c == '\r' || c == '\u{0b}' || c == '\u{0c}'
}

/// The first non-space position at or after `pos`.
pub open spec fn skip_spaces(s: Seq<char>, pos: int) -> int
    decreases s.len() - pos,
{
    if pos < 0 || pos >= s.len() {
        s.len() as int
    } else if is_space(s[pos]) {
        skip_spaces(s, pos + 1)
    } else {
        pos
    }
}

/// The first space position at or after `pos`.
pub open spec fn token_end(s: Seq<char>, pos: int) -> int
    decreases s.len() - pos,
{
    if pos < 0 || pos >= s.len() {
        s.len() as int
    } else if is_space(s[pos]) {
        pos
    } else {
        token_end(s, pos + 1)
    }
}

proof fn lemma_skip_spaces_bounds(s: Seq<char>, pos: int)
    requires
        0 <= pos <= s.len(),
    ensures
        pos <= skip_spaces(s, pos) <= s.len(),
    decreases s.len() - pos,
{
    if pos < s.len() && is_space(s[pos]) {
        lemma_skip_spaces_bounds(s, pos + 1);
    }
}

/// The position `skip_spaces` finds holds no space.
proof fn lemma_skip_spaces_char(s: Seq<char>, pos: int)
    requires
        0 <= pos <= s.len(),
        skip_spaces(s, pos) < s.len(),
    ensures
        !is_space(s[skip_spaces(s, pos)]),
    decreases s.len() - pos,
{
    if pos < s.len() && is_space(s[pos]) {
        lemma_skip_spaces_char(s, pos + 1);
    }
}

proof fn lemma_token_end_bounds(s: Seq<char>, pos: int)
    requires
        0 <= pos <= s.len(),
    ensures
        pos <= token_end(s, pos) <= s.len(),
    decreases s.len() - pos,
{
    if pos < s.len() && !is_space(s[pos]) {
        lemma_token_end_bounds(s, pos + 1);
    }
}

/// The whitespace-separated fields of `s` from `pos` on.
pub open spec fn spec_tokens(s: Seq<char>, pos: int) -> Seq<Seq<char>>
    decreases s.len() - pos,
    via spec_tokens_decreases
{
    if !(0 <= pos <= s.len()) {
        Seq::empty()
    } else {
        let b = skip_spaces(s, pos);
        if b >= s.len() {
            Seq::empty()
        } else {
            seq![s.subrange(b, token_end(s, b))] + spec_tokens(s, token_end(s, b))
        }
    }
}

#[via_fn]
proof fn spec_tokens_decreases(s: Seq<char>, pos: int) {
    if 0 <= pos <= s.len() {
        lemma_skip_spaces_bounds(s, pos);
        let b = skip_spaces(s, pos);
        if b < s.len() {
            lemma_skip_spaces_char(s, pos);
            assert(token_end(s, b) == token_end(s, b + 1));
            lemma_token_end_bounds(s, b + 1);
        }
    }
}

/// Finds the first non-space at or after `pos`.
fn str_skip_spaces(s: &str, pos: usize) -> (i: usize)
    requires
        pos <= s@.len(),
    ensures
        i == skip_spaces(s@, pos as int),
        pos <= i <= s@.len(),
{
    let n = s.unicode_len();
    let mut i: usize = pos;
    while i < n
        invariant
            n == s@.len(),
            pos <= i <= n,
            skip_spaces(s@, pos as int) == skip_spaces(s@, i as int),
        decreases n - i,
    {
        let c = s.get_char(i);
        if !(c == ' ' || c == '\t' || c == '\n' || c == '\r' || c == '\u{0b}' || c == '\u{0c}') {
            return i;
        }
        i += 1;
    }
    i
}

/// Finds the first space at or after `pos`.
fn str_token_end(s: &str, pos: usize) -> (i: usize)
    requires
        pos <= s@.len(),
    ensures
        i == token_end(s@, pos as int),
        pos <= i <= s@.len(),
{
    let n = s.unicode_len();
    let mut i: usize = pos;
    while i < n
        invariant
            n == s@.len(),
            pos <= i <= n,
            token_end(s@, pos as int) == token_end(s@, i as int),
        decreases n - i,
    {
        let c = s.get_char(i);
        if c == ' ' || c == '\t' || c == '\n' || c == '\r' || c == '\u{0b}' || c == '\u{0c}' {
            return i;
        }
        i += 1;
    }
    i
}

/// Splits a line into its whitespace-separated fields.
fn tokens(s: &str) -> (r: Vec<String>)
    ensures
        strings_view(r@) == spec_tokens(s@, 0),
{
    let n = s.unicode_len();
    let mut r: Vec<String> = Vec::new();
    let mut pos: usize = 0;
    loop
        invariant
            n == s@.len(),
            0 <= pos <= n,
            spec_tokens(s@, 0) == strings_view(r@) + spec_tokens(s@, pos as int),
        decreases n - pos,
    {
        let ghost tokens_before = r@;
        let b = str_skip_spaces(s, pos);
        if b >= n {
            proof {
                assert(spec_tokens(s@, 0) =~= strings_view(r@));
            }
            return r;
        }
        let e = str_token_end(s, b);
        proof {
            lemma_skip_spaces_char(s@, pos as int);
            assert(token_end(s@, b as int) == token_end(s@, b + 1));
            lemma_token_end_bounds(s@, b + 1);
        }
        r.push(s.substring_char(b, e).to_owned());
        proof {
            assert(strings_view(r@) =~= strings_view(tokens_before) + seq![
                s@.subrange(b as int, e as int),
            ]);
            assert(strings_view(r@) + spec_tokens(s@, e as int) =~= strings_view(tokens_before)
                + spec_tokens(s@, pos as int));
            assert(e > b);
        }
        pos = e;
    }
}

/// An octal digit byte.
pub open spec fn is_octal(b: u8) -> bool {
    0x30 <= b <= 0x37
}

/// Resolves the `\ooo` octal escapes in a field's bytes: a backslash must
/// carry exactly three octal digits, whose value is taken modulo 256 as one
/// byte; everything else passes through. `None` when an escape is cut short
/// or holds a non-octal digit.
pub open spec fn spec_unescape_octal(s: Seq<u8>) -> Option<Seq<u8>>
    decreases s.len(),
{
    if s.len() == 0 {
        Some(Seq::empty())
    } else if s[0] == 0x5c {
        if s.len() >= 4 && is_octal(s[1]) && is_octal(s[2]) && is_octal(s[3]) {
            let code = (s[1] - 0x30) * 64 + (s[2] - 0x30) * 8 + (s[3] - 0x30);
            match spec_unescape_octal(s.subrange(4, s.len() as int)) {
                Some(rest) => Some(seq![(code % 256) as u8] + rest),
                None => None,
            }
        } else {
            None
        }
    } else {
        match spec_unescape_octal(s.drop_first()) {
            Some(rest) => Some(seq![s[0]] + rest),
            None => None,
        }
    }
}

/// Resolves the octal escapes in a field.
fn parse_value(value: &str) -> (r: Result<Vec<u8>, MountParseError>)
    ensures
        (match r {
            Ok(out) => spec_unescape_octal(value.spec_bytes()) == Some(out@),
            Err(_) => spec_unescape_octal(value.spec_bytes()) is None,
        }),
{
    let bytes = value.as_bytes_vec();
    let n = bytes.len();
    let mut out: Vec<u8> = Vec::new();
    let mut pos: usize = 0;
    proof {
        assert(bytes@.subrange(0, n as int) =~= bytes@);
        assert(out@ + bytes@ =~= bytes@);
    }
    while pos < n
        invariant
            bytes@ == value.spec_bytes(),
            n == bytes@.len(),
            pos <= n,
            (match spec_unescape_octal(bytes@.subrange(pos as int, n as int)) {
                Some(rest) => spec_unescape_octal(bytes@) == Some(out@ + rest),
                None => spec_unescape_octal(bytes@) is None,
            }),
        decreases n - pos,
    {
        let ghost out_before = out@;
        let ghost here = bytes@.subrange(pos as int, n as int);
        let b = bytes[pos];
        if b == 0x5c {
            if n - pos < 4 {
                proof {
                    assert(here[0] == 0x5c && here.len() < 4);
                }
                return Err(
                    MountParseError { why: String::from_str("truncated octal code") },
                );
            }
            let d1 = bytes[pos + 1];
            let d2 = bytes[pos + 2];
            let d3 = bytes[pos + 3];
            if !(0x30 <= d1 && d1 <= 0x37 && 0x30 <= d2 && d2 <= 0x37 && 0x30 <= d3 && d3
                <= 0x37) {
                proof {
                    assert(here[0] == 0x5c && here[1] == d1 && here[2] == d2 && here[3] == d3);
                }
                return Err(
                    MountParseError { why: String::from_str("invalid digit found in string") },
                );
            }
            let code: u16 = ((d1 - 0x30) as u16) * 64 + ((d2 - 0x30) as u16) * 8 + ((d3 - 0x30)
                as u16);
            out.push((code % 256) as u8);
            proof {
                assert(here.subrange(4, here.len() as int) =~= bytes@.subrange(
                    pos + 4,
                    n as int,
                ));
                assert(here[0] == 0x5c && here[1] == d1 && here[2] == d2 && here[3] == d3);
                assert(out@ =~= out_before.push(((((d1 - 0x30) * 64 + (d2 - 0x30) * 8 + (d3
                    - 0x30)) % 256)) as u8));
                assert forall|rest: Seq<u8>|
                    out_before + (seq![out@.last()] + rest) =~= out@ + rest by {}
            }
            pos = pos + 4;
        } else {
            out.push(b);
            proof {
                assert(here.drop_first() =~= bytes@.subrange(pos + 1, n as int));
                assert(here[0] == b);
                assert forall|rest: Seq<u8>| out_before + (seq![b] + rest) =~= out@ + rest by {}
            }
            pos = pos + 1;
        }
    }
    proof {
        assert(bytes@.subrange(n as int, n as int) =~= Seq::<u8>::empty());
        assert(out@ + Seq::<u8>::empty() =~= out@);
    }
    Ok(out)
}

/// A digit character.
pub open spec fn is_digit(c: char) -> bool {
    '0' <= c <= '9'
}

/// The value of a digit string, most significant first.
pub open spec fn digits_value(t: Seq<char>) -> int
    decreases t.len(),
{
    if t.len() == 0 {
        0
    } else {
        digits_value(t.drop_last()) * 10 + (t.last() as int - 0x30)
    }
}

/// A literal without its sign.
pub open spec fn int_literal_body(t: Seq<char>) -> Seq<char> {
    if t.len() > 0 && (t[0] == '-' || t[0] == '+') {
        t.drop_first()
    } else {
        t
    }
}

/// Nothing but digits.
pub open spec fn all_digits(s: Seq<char>) -> bool {
    forall|i: int| 0 <= i < s.len() ==> is_digit(#[trigger] s[i])
}

/// A string `i32::from_str` accepts: an optional sign, then digits, the
/// value within range.
pub open spec fn is_i32_literal(t: Seq<char>) -> bool {
    &&& int_literal_body(t).len() > 0
    &&& all_digits(int_literal_body(t))
    &&& (if t.len() > 0 && t[0] == '-' {
        digits_value(int_literal_body(t)) <= 0x8000_0000
    } else {
        digits_value(int_literal_body(t)) < 0x8000_0000
    })
}

/// Checks a token for the shape and range of an `i32`.
fn check_i32_literal(t: &str) -> (r: bool)
    ensures
        r == is_i32_literal(t@),
{
    let n = t.unicode_len();
    if n == 0 {
        return false;
    }
    let first = t.get_char(0);
    let negative = first == '-';
    let start: usize = if first == '-' || first == '+' {
        1
    } else {
        0
    };
    let ghost body = int_literal_body(t@);
    if n == start {
        proof {
            assert(body.len() == 0);
        }
        return false;
    }
    // The value, clamped at 2^32 so the accumulator cannot overflow.
    let mut value: u64 = 0;
    let mut i: usize = start;
    while i < n
        invariant
            n == t@.len(),
            start <= i <= n,
            start == (if t@.len() > 0 && (t@[0] == '-' || t@[0] == '+') {
                1int
            } else {
                0int
            }),
            negative == (t@.len() > 0 && t@[0] == '-'),
            body == int_literal_body(t@),
            body == t@.subrange(start as int, n as int),
            forall|j: int| 0 <= j < i - start ==> is_digit(#[trigger] body[j]),
            value == (if digits_value(body.take(i - start)) < 0x1_0000_0000 {
                digits_value(body.take(i - start))
            } else {
                0x1_0000_0000
            }),
        decreases n - i,
    {
        let c = t.get_char(i);
        if !('0' <= c && c <= '9') {
            proof {
                assert(int_literal_body(t@)[i - start] == c);
                assert(0 <= i - start < int_literal_body(t@).len());
                assert(!is_digit(c));
            }
            return false;
        }
        let ghost value_so_far = digits_value(body.take(i - start));
        let d = (c as u32) as u64 - 0x30;
        value = value * 10 + d;
        if value > 0x1_0000_0000 {
            value = 0x1_0000_0000;
        }
        i += 1;
        proof {
            assert(body.take(i - start).drop_last() =~= body.take(i - start - 1));
            assert(body.take(i - start).last() == c);
            assert(digits_value(body.take(i - start)) == value_so_far * 10 + (c as int - 0x30));
        }
    }
    proof {
        assert(body.take(n - start) =~= body);
    }
    if negative {
        value <= 0x8000_0000
    } else {
        value < 0x8000_0000
    }
}

/// Everything `from_str` promises about parsing one line, as a relation
/// between the line and the outcome.
pub open spec fn mount_parse_ok(line: Seq<char>, r: Result<MountInfo, MountParseError>) -> bool {
    let fields = spec_tokens(line, 0);
    match r {
        Ok(m) => {
            &&& fields.len() >= 4
            &&& (fields.len() <= 4 || is_i32_literal(fields[4]))
            &&& (fields.len() <= 5 || is_i32_literal(fields[5]))
            &&& (spec_unescape_octal(encode_utf8(fields[0])) matches Some(sb) && valid_utf8(sb)
                && m.source@ == decode_utf8(sb))
            &&& (spec_unescape_octal(encode_utf8(fields[1])) matches Some(db) && valid_utf8(db)
                && m.dest@ == decode_utf8(db))
            &&& m.fstype@ == fields[2]
            &&& strings_view(m.options@) == spec_split(fields[3], 0, ',')
        },
        Err(e) => {
            ||| (fields.len() < 4 && (e.why@ == "missing source"@ || e.why@ == "missing dest"@
                || e.why@ == "missing type"@ || e.why@ == "missing options"@))
            ||| (fields.len() > 4 && !is_i32_literal(fields[4]) && e.why@
                == "dump value is not a number"@)
            ||| (fields.len() > 5 && !is_i32_literal(fields[5]) && e.why@
                == "pass value is not a number"@)
            ||| (spec_unescape_octal(encode_utf8(fields[0])) is None || spec_unescape_octal(
                encode_utf8(fields[1]),
            ) is None)
            ||| (((spec_unescape_octal(encode_utf8(fields[0])) matches Some(sb) && !valid_utf8(
                sb,
            )) || (spec_unescape_octal(encode_utf8(fields[1])) matches Some(db) && !valid_utf8(
                db,
            ))) && e.why@ == "non-utf8 paths are unsupported"@)
        },
    }
}

impl MountInfo {
    /// Attempt to parse a `/proc/mounts`-like line: four mandatory
    /// whitespace-separated fields (source, destination, type, options),
    /// optionally followed by numeric dump and pass fields; octal escapes in
    /// the two paths are resolved, the options split at commas.
    pub fn from_str(line: &str) -> (r: Result<MountInfo, MountParseError>)
        ensures
            mount_parse_ok(line@, r),
    {
        let fields = tokens(line);
        if fields.len() == 0 {
            return Err(MountParseError { why: String::from_str("missing source") });
        }
        if fields.len() == 1 {
            return Err(MountParseError { why: String::from_str("missing dest") });
        }
        if fields.len() == 2 {
            return Err(MountParseError { why: String::from_str("missing type") });
        }
        if fields.len() == 3 {
            return Err(MountParseError { why: String::from_str("missing options") });
        }
        if fields.len() > 4 && !check_i32_literal(fields[4].as_str()) {
            return Err(MountParseError { why: String::from_str("dump value is not a number") });
        }
        if fields.len() > 5 && !check_i32_literal(fields[5].as_str()) {
            return Err(MountParseError { why: String::from_str("pass value is not a number") });
        }
        let source_bytes = match parse_value(fields[0].as_str()) {
            Ok(bytes) => bytes,
            Err(e) => {
                return Err(e);
            },
        };
        let source = match string_from_utf8(source_bytes) {
            Some(source) => source,
            None => {
                return Err(
                    MountParseError { why: String::from_str("non-utf8 paths are unsupported") },
                );
            },
        };
        let dest_bytes = match parse_value(fields[1].as_str()) {
            Ok(bytes) => bytes,
            Err(e) => {
                return Err(e);
            },
        };
        let dest = match string_from_utf8(dest_bytes) {
            Some(dest) => dest,
            None => {
                return Err(
                    MountParseError { why: String::from_str("non-utf8 paths are unsupported") },
                );
            },
        };
        let options = split_string(fields[3].as_str(), ',');
        Ok(
            MountInfo {
                source,
                dest,
                fstype: fields[2].clone(),
                options,
            },
        )
    }
}

/// Whether a mount-table line holds an entry: something stands on it and it
/// is not a comment.
pub open spec fn is_entry_line(line: Seq<char>) -> bool {
    let b = skip_spaces(line, 0);
    b < line.len() && line[b] != '#'
}

/// A line with its leading whitespace removed.
pub open spec fn trimmed(line: Seq<char>) -> Seq<char> {
    line.subrange(skip_spaces(line, 0), line.len() as int)
}

/// Iteratively parse `/proc/mounts`-style content: line by line, skipping
/// blank lines and comments.
pub struct MountIter {
    /// The lines of the table.
    pub lines: Vec<String>,
    /// The next unread line.
    pub cursor: usize,
}

impl MountIter {
    /// Read mounts from an in-memory buffer holding the whole table.
    pub fn new_from_reader(content: &str) -> (r: Self)
        ensures
            strings_view(r.lines@) == spec_split(content@, 0, '\n'),
            r.cursor == 0,
    {
        MountIter { lines: split_string(content, '\n'), cursor: 0 }
    }

    /// The next entry of the table: the first entry line at or after the
    /// cursor, parsed; blank lines and comments are passed over. `None`
    /// exactly when no entry line is left.
    pub fn next_entry(&mut self) -> (r: Option<Result<MountInfo, MountParseError>>)
        ensures
            final(self).lines@ == old(self).lines@,
            (match r {
                Some(entry) => exists|i: int|
                    old(self).cursor <= i < old(self).lines@.len() && is_entry_line(
                        (#[trigger] old(self).lines@[i])@,
                    ) && mount_parse_ok(trimmed(old(self).lines@[i]@), entry)
                        && final(self).cursor == i + 1 && (forall|j: int|
                        old(self).cursor <= j < i ==> !is_entry_line(
                            (#[trigger] old(self).lines@[j])@,
                        )),
                None => {
                    &&& forall|j: int|
                        old(self).cursor <= j < old(self).lines@.len() ==> !is_entry_line(
                            (#[trigger] old(self).lines@[j])@,
                        )
                    &&& final(self).cursor == old(self).lines@.len()
                },
            }),
    {
        loop
            invariant
                self.lines@ == old(self).lines@,
                old(self).cursor <= self.cursor,
                forall|j: int|
                    old(self).cursor <= j < self.cursor ==> !is_entry_line(
                        (#[trigger] old(self).lines@[j])@,
                    ),
            decreases self.lines@.len() - self.cursor,
        {
            if self.cursor >= self.lines.len() {
                self.cursor = self.lines.len();
                return None;
            }
            let line = &self.lines[self.cursor];
            let b = str_skip_spaces(line.as_str(), 0);
            let n = line.as_str().unicode_len();
            self.cursor = self.cursor + 1;
            if b < n && line.as_str().get_char(b) != '#' {
                let rest = line.as_str().substring_char(b, n);
                let entry = MountInfo::from_str(rest);
                proof {
                    assert(rest@ =~= trimmed(line@));
                }
                return Some(entry);
            }
        }
    }

    /// Whether `source` is mounted at `path`, going by the first entry for
    /// the source in the given table content. An entry that does not parse
    /// is reported instead; when the source has no entry the answer is that
    /// it is not mounted.
    pub fn source_mounted_at(content: &str, source: &str, path: &str) -> (r: Result<
        bool,
        MountParseError,
    >)
        ensures
            (match r {
                Ok(true) => exists|line: Seq<char>, m: MountInfo|
                    #![all_triggers]
                    spec_split(content@, 0, '\n').contains(line) && is_entry_line(line)
                        && mount_parse_ok(trimmed(line), Ok(m)) && m.source@ == source@ && m.dest@
                        == path@,
                Ok(false) => true,
                Err(e) => exists|line: Seq<char>|
                    #![all_triggers]
                    spec_split(content@, 0, '\n').contains(line) && is_entry_line(line)
                        && mount_parse_ok(trimmed(line), Err(e)),
            }),
    {
        let mut mounts = MountIter::new_from_reader(content);
        let ghost all_lines = strings_view(mounts.lines@);
        loop
            invariant
                all_lines == strings_view(mounts.lines@),
                all_lines == spec_split(content@, 0, '\n'),
                mounts.cursor <= mounts.lines@.len(),
            decreases mounts.lines@.len() - mounts.cursor,
        {
            let ghost cursor_before = mounts.cursor;
            let entry = match mounts.next_entry() {
                Some(entry) => entry,
                None => {
                    return Ok(false);
                },
            };
            proof {
                let i = choose|i: int|
                    cursor_before <= i < mounts.lines@.len() && is_entry_line(
                        (#[trigger] mounts.lines@[i])@,
                    ) && mount_parse_ok(trimmed(mounts.lines@[i]@), entry) && mounts.cursor == i
                        + 1 && (forall|j: int|
                        cursor_before <= j < i ==> !is_entry_line(
                            (#[trigger] mounts.lines@[j])@,
                        ));
                assert(all_lines[i] == mounts.lines@[i]@);
                assert(all_lines.contains(all_lines[i]));
            }
            let mount = match entry {
                Ok(mount) => mount,
                Err(e) => {
                    return Err(e);
                },
            };
            if crate::strutil::str_eq(mount.source.as_str(), source) {
                let found = crate::strutil::str_eq(mount.dest.as_str(), path);
                return Ok(found);
            }
        }
    }
}

} // verus!
