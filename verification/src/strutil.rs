//! Conversions between strings and character vectors.
//!
//! The parsing code in this crate works on `Vec<char>` so that every
//! character access is a verified vector index; these helpers move between
//! that representation and `String` / `&str`.

use vstd::prelude::*;
use vstd::string::StrSliceExecFns;

verus! {

/// Appends one character to the end of a string.
///
/// Relies on `String::push`: it appends the given `char` to the end of the
/// `String`.
#[verifier::external_body]
pub fn push_char(s: &mut String, c: char)
    ensures
        final(s)@ == old(s)@.push(c),
{
    s.push(c);
}

/// Collects the characters of a string slice into a vector.
pub fn str_to_chars(s: &str) -> (v: Vec<char>)
    ensures
        v@ == s@,
{
    let n: usize = s.unicode_len();
    let mut v: Vec<char> = Vec::new();
    let mut i: usize = 0;
    while i < n
        invariant
            i <= n,
            n == s@.len(),
            v@ == s@.take(i as int),
        decreases n - i,
    {
        v.push(s.get_char(i));
        assert(v@ =~= s@.take(i + 1));
        i = i + 1;
    }
    assert(v@ =~= s@);
    v
}

/// Builds a string from a vector of characters.
pub fn chars_to_string(v: &Vec<char>) -> (s: String)
    ensures
        s@ == v@,
{
    let mut s = String::new();
    let mut i: usize = 0;
    while i < v.len()
        invariant
            i <= v@.len(),
            s@ == v@.take(i as int),
        decreases v@.len() - i,
    {
        push_char(&mut s, v[i]);
        assert(s@ =~= v@.take(i + 1));
        i = i + 1;
    }
    assert(s@ =~= v@);
    s
}

/// Index of the first newline in `s` at or after `i`, or `s.len()` if
/// there is none.
pub open spec fn find_newline(s: Seq<char>, i: nat) -> nat
    recommends
        i <= s.len(),
    decreases s.len() - i when i <= s.len()
{
    if i >= s.len() {
        i
    } else if s[i as int] == '\n' {
        i
    } else {
        find_newline(s, i + 1)
    }
}

/// `find_newline(s, i)` is the unique `j` at or after `i` with no newline
/// in `[i, j)` and a newline, or the end of `s`, at `j`.
pub proof fn lemma_find_newline_at(s: Seq<char>, i: nat, j: nat)
    requires
        i <= j <= s.len(),
        forall|k: int| i <= k < j ==> s[k] != '\n',
        j < s.len() ==> s[j as int] == '\n',
    ensures
        find_newline(s, i) == j,
    decreases j - i,
{
    if i < j {
        lemma_find_newline_at(s, i + 1, j);
    }
}

/// Drops one trailing carriage return from a line, as `str::lines` does.
pub open spec fn strip_cr(line: Seq<char>) -> Seq<char> {
    if line.len() > 0 && line[line.len() - 1] == '\r' {
        line.drop_last()
    } else {
        line
    }
}

/// The lines of `s`: split at `'\n'`, one trailing `'\r'` dropped from
/// each piece, and no empty final line when `s` ends with `'\n'` — the
/// semantics of `str::lines`.
pub open spec fn split_lines(s: Seq<char>) -> Seq<Seq<char>>
    decreases s.len(),
{
    if s.len() == 0 {
        Seq::empty()
    } else {
        let j = find_newline(s, 0);
        if j < s.len() {
            seq![strip_cr(s.take(j as int))] + split_lines(s.skip(j as int + 1))
        } else {
            seq![strip_cr(s)]
        }
    }
}

/// The views of a sequence of character vectors.
pub open spec fn views_of(lines: Seq<Vec<char>>) -> Seq<Seq<char>> {
    lines.map_values(|l: Vec<char>| l@)
}

/// Splits `text` into its lines, as `split_lines` describes them.
pub fn split_lines_exec(chars: &Vec<char>) -> (lines: Vec<Vec<char>>)
    ensures
        views_of(lines@) == split_lines(chars@),
{
    let ghost text = chars@;
    let n: usize = chars.len();
    let mut lines: Vec<Vec<char>> = Vec::new();
    let mut pos: usize = 0;
    assert(views_of(lines@) + split_lines(text.skip(0)) =~= split_lines(text)) by {
        assert(text.skip(0) =~= text);
        assert(views_of(lines@).len() == 0);
    }
    while pos < n
        invariant
            pos <= n,
            n == text.len(),
            chars@ == text,
            views_of(lines@) + split_lines(text.skip(pos as int)) == split_lines(text),
        decreases n - pos,
    {
        let mut j: usize = pos;
        while j < n && chars[j] != '\n'
            invariant
                pos <= j <= n,
                n == text.len(),
                chars@ == text,
                forall|k: int| pos <= k < j ==> text[k] != '\n',
            decreases n - j,
        {
            j = j + 1;
        }
        let end: usize = if j > pos && chars[j - 1] == '\r' {
            j - 1
        } else {
            j
        };
        let mut line: Vec<char> = Vec::new();
        let mut k: usize = pos;
        while k < end
            invariant
                pos <= k <= end,
                end <= n,
                n == text.len(),
                chars@ == text,
                line@ == text.subrange(pos as int, k as int),
            decreases end - k,
        {
            line.push(chars[k]);
            assert(line@ =~= text.subrange(pos as int, k + 1));
            k = k + 1;
        }
        let ghost tail = text.skip(pos as int);
        proof {
            assert forall|t: int| 0 <= t < j - pos implies tail[t] != '\n' by {
                assert(tail[t] == text[pos + t]);
            }
            if j < n {
                assert(tail[j - pos] == text[j as int]);
            }
            lemma_find_newline_at(tail, 0, (j - pos) as nat);
            assert(tail.take(j - pos) =~= text.subrange(pos as int, j as int));
            if end < j {
                // the piece before the newline ends in a carriage return
                assert(text.subrange(pos as int, j as int)[j - pos - 1] == text[j - 1]);
                assert(strip_cr(text.subrange(pos as int, j as int)) =~= text.subrange(
                    pos as int,
                    end as int,
                ));
            } else {
                assert(strip_cr(text.subrange(pos as int, j as int)) =~= text.subrange(
                    pos as int,
                    end as int,
                ));
            }
        }
        let ghost lines_before = lines@;
        lines.push(line);
        proof {
            assert(views_of(lines@) =~= views_of(lines_before).push(line@));
        }
        let ghost base = pos as int;
        if j < n {
            proof {
                assert(tail.len() > 0);
                assert(find_newline(tail, 0) == j - base);
                assert(tail.skip(j - base + 1) =~= text.skip(j + 1));
                assert(split_lines(tail) == seq![line@] + split_lines(text.skip(j + 1)));
                assert(views_of(lines_before).push(line@) + split_lines(text.skip(j + 1))
                    =~= views_of(lines_before) + split_lines(tail));
            }
            pos = j + 1;
        } else {
            proof {
                assert(tail.len() > 0);
                assert(find_newline(tail, 0) == tail.len());
                assert(strip_cr(tail) == line@) by {
                    assert(tail =~= text.subrange(base, j as int));
                }
                assert(split_lines(tail) =~= seq![line@]);
                assert(text.skip(n as int) =~= Seq::<char>::empty());
                assert(split_lines(text.skip(n as int)) =~= Seq::<Seq<char>>::empty());
                assert(views_of(lines_before).push(line@) + split_lines(text.skip(n as int))
                    =~= views_of(lines_before) + split_lines(tail));
            }
            pos = n;
        }
    }
    proof {
        assert(text.skip(n as int) =~= Seq::<char>::empty());
        assert(split_lines(text.skip(n as int)) =~= Seq::<Seq<char>>::empty());
        assert(views_of(lines@) =~= views_of(lines@) + split_lines(text.skip(n as int)));
    }
    lines
}

} // verus!
