//! Extraction of a device's assigned serial port from captured query
//! output.
//!
//! The serial-port query prints one line per port; a line reports a port
//! when it starts with `COM`, and it belongs to the device when it
//! contains the device address, rendered in uppercase hex, somewhere in
//! its device path.  The port identifier is the first
//! whitespace-delimited token of the first such line.  The match is by
//! substring, as the query output embeds the address in a longer path;
//! an address whose digits happen to occur inside another device's path
//! would match too — an approximate lookup, not a unique one.

use vstd::prelude::*;
use crate::hex::{hex_chars_upper, hex_upper};
use crate::shell::ShellVersion;
use crate::strutil::{chars_to_string, split_lines, split_lines_exec, str_to_chars, views_of};

verus! {

/// Whitespace, by the Unicode white-space property — exactly the
/// characters `char::is_whitespace` accepts.
pub open spec fn is_space(c: char) -> bool {
    c == ' ' || c == '\t' || c == '\n' || c == '\r' || c == '\u{0B}' || c == '\u{0C}' || c
        == '\u{85}' || c == '\u{A0}' || c == '\u{1680}' || c == '\u{2000}' || c == '\u{2001}' || c
        == '\u{2002}' || c == '\u{2003}' || c == '\u{2004}' || c == '\u{2005}' || c == '\u{2006}'
        || c == '\u{2007}' || c == '\u{2008}' || c == '\u{2009}' || c == '\u{200A}' || c
        == '\u{2028}' || c == '\u{2029}' || c == '\u{202F}' || c == '\u{205F}' || c == '\u{3000}'
}

/// Decides whether `c` is whitespace, as `is_space` describes.
pub fn is_space_char(c: char) -> (b: bool)
    ensures
        b == is_space(c),
{
    c == ' ' || c == '\t' || c == '\n' || c == '\r' || c == '\u{0B}' || c == '\u{0C}' || c
        == '\u{85}' || c == '\u{A0}' || c == '\u{1680}' || c == '\u{2000}' || c == '\u{2001}' || c
        == '\u{2002}' || c == '\u{2003}' || c == '\u{2004}' || c == '\u{2005}' || c == '\u{2006}'
        || c == '\u{2007}' || c == '\u{2008}' || c == '\u{2009}' || c == '\u{200A}' || c
        == '\u{2028}' || c == '\u{2029}' || c == '\u{202F}' || c == '\u{205F}' || c == '\u{3000}'
}

/// `needle` occurs somewhere in `hay` as a contiguous run.
pub open spec fn contains_seq(hay: Seq<char>, needle: Seq<char>) -> bool {
    exists|i: int|
        0 <= i && i + needle.len() <= hay.len() && #[trigger] hay.subrange(
            i,
            i + needle.len() as int,
        ) == needle
}

/// A line that reports a serial port: it starts with `COM`.
pub open spec fn starts_with_com(line: Seq<char>) -> bool {
    line.len() >= 3 && line[0] == 'C' && line[1] == 'O' && line[2] == 'M'
}

/// A line that resolves the device: a `COM` line containing the needle.
pub open spec fn line_matches(line: Seq<char>, needle: Seq<char>) -> bool {
    starts_with_com(line) && contains_seq(line, needle)
}

/// The first matching line, if any.
pub open spec fn first_match(lines: Seq<Seq<char>>, needle: Seq<char>) -> Option<Seq<char>>
    decreases lines.len(),
{
    if lines.len() == 0 {
        Option::None
    } else if line_matches(lines[0], needle) {
        Option::Some(lines[0])
    } else {
        first_match(lines.drop_first(), needle)
    }
}

/// Index of the first whitespace character in `line` at or after `i`, or
/// `line.len()` if there is none.
pub open spec fn find_space(line: Seq<char>, i: nat) -> nat
    recommends
        i <= line.len(),
    decreases line.len() - i when i <= line.len()
{
    if i >= line.len() {
        i
    } else if is_space(line[i as int]) {
        i
    } else {
        find_space(line, i + 1)
    }
}

/// `find_space(line, i)` is the unique `j` at or after `i` with no
/// whitespace in `[i, j)` and whitespace, or the end of `line`, at `j`.
pub proof fn lemma_find_space_at(line: Seq<char>, i: nat, j: nat)
    requires
        i <= j <= line.len(),
        forall|k: int| i <= k < j ==> !is_space(line[k]),
        j < line.len() ==> is_space(line[j as int]),
    ensures
        find_space(line, i) == j,
    decreases j - i,
{
    if i < j {
        lemma_find_space_at(line, i + 1, j);
    }
}

/// The first whitespace-delimited token of a line that does not begin
/// with whitespace: its prefix up to the first whitespace character.
pub open spec fn first_token(line: Seq<char>) -> Seq<char> {
    line.take(find_space(line, 0) as int)
}

/// The port extracted from captured query output for the device whose
/// rendered address is `needle`: the first token of the first `COM` line
/// containing the needle, if any line does.
pub open spec fn extracted_port(text: Seq<char>, needle: Seq<char>) -> Option<Seq<char>> {
    match first_match(split_lines(text), needle) {
        Option::None => Option::None,
        Option::Some(l) => Option::Some(first_token(l)),
    }
}

/// `first_match` finds nothing when no line matches.
proof fn lemma_first_match_none(lines: Seq<Seq<char>>, needle: Seq<char>)
    requires
        forall|j: int| 0 <= j < lines.len() ==> !line_matches(#[trigger] lines[j], needle),
    ensures
        first_match(lines, needle) == Option::<Seq<char>>::None,
    decreases lines.len(),
{
    if lines.len() > 0 {
        assert forall|j: int|
            0 <= j < lines.drop_first().len() implies !line_matches(
            #[trigger] lines.drop_first()[j],
            needle,
        ) by {
            assert(lines.drop_first()[j] == lines[j + 1]);
        }
        lemma_first_match_none(lines.drop_first(), needle);
    }
}

/// `first_match` finds line `i` when it matches and no earlier line does.
proof fn lemma_first_match_at(lines: Seq<Seq<char>>, needle: Seq<char>, i: int)
    requires
        0 <= i < lines.len(),
        line_matches(lines[i], needle),
        forall|j: int| 0 <= j < i ==> !line_matches(#[trigger] lines[j], needle),
    ensures
        first_match(lines, needle) == Option::Some(lines[i]),
    decreases i,
{
    if i > 0 {
        assert(lines.drop_first()[i - 1] == lines[i]);
        assert forall|j: int|
            0 <= j < i - 1 implies !line_matches(#[trigger] lines.drop_first()[j], needle) by {
            assert(lines.drop_first()[j] == lines[j + 1]);
        }
        lemma_first_match_at(lines.drop_first(), needle, i - 1);
    }
}

/// Law: when no line of the captured output both starts with `COM` and
/// contains the needle, no port is extracted, and the report's port
/// column for the device is the `NONE` sentinel.
pub proof fn lemma_no_match_no_port(text: Seq<char>, needle: Seq<char>)
    requires
        forall|j: int|
            0 <= j < split_lines(text).len() ==> !line_matches(
                #[trigger] split_lines(text)[j],
                needle,
            ),
    ensures
        extracted_port(text, needle) == Option::<Seq<char>>::None,
{
    lemma_first_match_none(split_lines(text), needle);
}

/// Law: when line `i` of the captured output matches the needle and no
/// earlier line does — in particular when exactly one line matches —
/// the extracted port is that line's first whitespace-delimited token.
pub proof fn lemma_match_gives_first_token(text: Seq<char>, needle: Seq<char>, i: int)
    requires
        0 <= i < split_lines(text).len(),
        line_matches(split_lines(text)[i], needle),
        forall|j: int| 0 <= j < i ==> !line_matches(#[trigger] split_lines(text)[j], needle),
    ensures
        extracted_port(text, needle) == Option::Some(first_token(split_lines(text)[i])),
{
    lemma_first_match_at(split_lines(text), needle, i);
}

/// The view of an optional port string.
pub open spec fn port_view(p: Option<String>) -> Option<Seq<char>> {
    match p {
        Option::None => Option::None,
        Option::Some(s) => Option::Some(s@),
    }
}

/// Decides whether `needle` occurs in `hay` starting at `i`.
fn occurs_at(hay: &Vec<char>, needle: &Vec<char>, i: usize) -> (b: bool)
    requires
        i + needle@.len() <= hay@.len(),
    ensures
        b == (hay@.subrange(i as int, i as int + needle@.len() as int) == needle@),
{
    let n: usize = hay.len();
    let m: usize = needle.len();
    let ghost piece = hay@.subrange(i as int, i as int + m as int);
    let mut k: usize = 0;
    while k < m
        invariant
            k <= m,
            n == hay@.len(),
            m == needle@.len(),
            i + m <= n,
            piece == hay@.subrange(i as int, i as int + m as int),
            forall|t: int| 0 <= t < k ==> hay@[i + t] == needle@[t],
        decreases m - k,
    {
        if hay[i + k] != needle[k] {
            proof {
                assert(piece[k as int] == hay@[i + k]);
            }
            return false;
        }
        k = k + 1;
    }
    proof {
        assert(piece =~= needle@);
    }
    true
}

/// Decides whether `needle` occurs anywhere in `hay`.
fn contains_chars(hay: &Vec<char>, needle: &Vec<char>) -> (b: bool)
    ensures
        b == contains_seq(hay@, needle@),
{
    let n: usize = hay.len();
    let m: usize = needle.len();
    if m > n {
        return false;
    }
    if m == 0 {
        proof {
            assert(hay@.subrange(0, 0 + needle@.len() as int) =~= needle@);
            assert(contains_seq(hay@, needle@));
        }
        return true;
    }
    let mut i: usize = 0;
    while i <= n - m
        invariant
            1 <= m <= n,
            n == hay@.len(),
            m == needle@.len(),
            i <= n - m + 1,
            forall|t: int|
                0 <= t < i ==> #[trigger] hay@.subrange(t, t + needle@.len() as int) != needle@,
        decreases n - m + 1 - i,
    {
        if occurs_at(hay, needle, i) {
            return true;
        }
        i = i + 1;
    }
    proof {
        assert forall|t: int| 0 <= t && t + needle@.len() <= hay@.len() implies #[trigger] hay@.subrange(
            t,
            t + needle@.len() as int,
        ) != needle@ by {
            assert(t < i);
        }
    }
    false
}

/// Decides whether a line is a `COM` line containing the needle.
fn line_matches_exec(line: &Vec<char>, needle: &Vec<char>) -> (b: bool)
    ensures
        b == line_matches(line@, needle@),
{
    if line.len() < 3 {
        return false;
    }
    if !(line[0] == 'C' && line[1] == 'O' && line[2] == 'M') {
        return false;
    }
    contains_chars(line, needle)
}

/// Copies the first whitespace-delimited token of `line`, which must not
/// begin with whitespace for the token to be its leading run.
fn first_token_exec(line: &Vec<char>) -> (t: Vec<char>)
    ensures
        t@ == first_token(line@),
{
    let n: usize = line.len();
    let mut j: usize = 0;
    while j < n && !is_space_char(line[j])
        invariant
            j <= n,
            n == line@.len(),
            forall|k: int| 0 <= k < j ==> !is_space(line@[k]),
        decreases n - j,
    {
        j = j + 1;
    }
    proof {
        lemma_find_space_at(line@, 0, j as nat);
    }
    let mut t: Vec<char> = Vec::new();
    let mut k: usize = 0;
    while k < j
        invariant
            k <= j <= n,
            n == line@.len(),
            t@ == line@.take(k as int),
        decreases j - k,
    {
        t.push(line[k]);
        assert(t@ =~= line@.take(k + 1));
        k = k + 1;
    }
    proof {
        assert(t@ =~= line@.take(find_space(line@, 0) as int));
    }
    t
}

/// Extracts the port assigned to the device with the given address from
/// the captured text of the serial-port query: the first token of the
/// first `COM` line containing the address in uppercase hex, or nothing
/// when no line matches.
pub fn extract_port(output: &str, address: u64) -> (r: Option<String>)
    ensures
        port_view(r) == extracted_port(output@, hex_upper(address as nat)),
{
    let chars = str_to_chars(output);
    let lines = split_lines_exec(&chars);
    let needle = hex_chars_upper(address);
    let ghost lv = views_of(lines@);
    let mut i: usize = 0;
    assert(lv.skip(0) =~= lv);
    while i < lines.len()
        invariant
            i <= lines@.len(),
            lv == views_of(lines@),
            lv == split_lines(output@),
            needle@ == hex_upper(address as nat),
            first_match(lv, needle@) == first_match(lv.skip(i as int), needle@),
        decreases lines@.len() - i,
    {
        proof {
            assert(lv.skip(i as int)[0] == lv[i as int]);
            assert(lv[i as int] == lines@[i as int]@);
        }
        if line_matches_exec(&lines[i], &needle) {
            proof {
                assert(first_match(lv.skip(i as int), needle@) == Option::Some(lv[i as int]));
            }
            let t = first_token_exec(&lines[i]);
            let s = chars_to_string(&t);
            return Option::Some(s);
        }
        proof {
            assert(lv.skip(i as int).drop_first() =~= lv.skip(i + 1));
        }
        i = i + 1;
    }
    proof {
        assert(lv.skip(lines@.len() as int) =~= Seq::<Seq<char>>::empty());
    }
    Option::None
}

/// The port decision for one device: an unsupported shell gets no lookup
/// at all, otherwise the captured output of the version-appropriate
/// query decides.  `query_output` is that captured text, present exactly
/// when the shell version is supported.
pub fn device_port(version: ShellVersion, query_output: &Option<String>, address: u64) -> (r:
    Option<String>)
    requires
        (query_output matches Option::Some(_)) <==> (version == ShellVersion::Legacy || version
            == ShellVersion::Modern),
    ensures
        version == ShellVersion::Unsupported ==> r matches Option::None,
        *query_output matches Option::Some(t) ==> port_view(r) == extracted_port(
            t@,
            hex_upper(address as nat),
        ),
{
    match query_output {
        Option::Some(t) => extract_port(t.as_str(), address),
        Option::None => Option::None,
    }
}

} // verus!
