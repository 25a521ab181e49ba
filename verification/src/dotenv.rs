//! Reading `.env` files: `KEY=value` lines, with comments and quotes.
//!
//! Finding the files and setting the variables is the caller's.

use vstd::prelude::*;
use crate::auth_worker::{split_chars, split_on};
use crate::health::{first_pos};
use crate::text::{chars_of, find_char, has_prefix, slice_chars, string_of, trim, trim_chars};

verus! {

/// A value without one pair of matching surrounding quotes (double or
/// single).
pub open spec fn unquoted(v: Seq<char>) -> Seq<char> {
    if v.len() >= 2 && ((v[0] == '"' && v.last() == '"') || (v[0] == '\'' && v.last() == '\'')) {
        v.subrange(1, v.len() - 1)
    } else {
        v
    }
}

fn unquote_chars(v: &Vec<char>) -> (r: Vec<char>)
    ensures
        r@ == unquoted(v@),
{
    let n = v.len();
    if n >= 2 && ((v[0] == '"' && v[n - 1] == '"') || (v[0] == '\'' && v[n - 1] == '\'')) {
        slice_chars(v, 1, n - 1)
    } else {
        slice_chars(v, 0, n)
    }
}

pub fn unquote_env_value(value: &str) -> (r: String)
    ensures
        r@ == unquoted(value@),
{
    let v = chars_of(value);
    let u = unquote_chars(&v);
    string_of(u.as_slice())
}

/// What one line of a `.env` file sets: nothing for a blank line, a
/// comment, a line without `=` or with a blank key; otherwise the trimmed
/// key and the trimmed, unquoted value.
pub open spec fn env_line(line: Seq<char>) -> Option<(Seq<char>, Seq<char>)> {
    let t = trim(line);
    if t.len() == 0 || t[0] == '#' {
        None
    } else {
        match first_pos(t, '=') {
            None => None,
            Some(i) => {
                let key = trim(t.take(i));
                if key.len() == 0 {
                    None
                } else {
                    Some((key, unquoted(trim(t.skip(i + 1)))))
                }
            },
        }
    }
}

pub fn parse_env_line(line: &str) -> (r: Option<(String, String)>)
    ensures
        match env_line(line@) {
            Some((k, v)) => r matches Some((a, b)) && a@ == k && b@ == v,
            None => r is None,
        },
{
    let raw = chars_of(line);
    let t = trim_chars(&raw);
    if t.len() == 0 || t[0] == '#' {
        return None;
    }
    match find_char(&t, '=') {
        None => {
            assert(!(exists|i: int| 0 <= i < t@.len() && t@[i] == '='));
            None
        },
        Some(i) => {
            proof {
                let j = choose|j: int| 0 <= j < t@.len() && t@[j] == '=' && forall|k: int| 0 <= k < j ==> t@[k] != '=';
                assert(j == i as int) by {
                    if j < i {
                        assert(t@[j] != '=');
                    } else if i < j {
                        assert(t@[i as int] != '=');
                    }
                }
            }
            let head = slice_chars(&t, 0, i);
            assert(head@ =~= t@.take(i as int));
            let key = trim_chars(&head);
            if key.len() == 0 {
                return None;
            }
            let tail = slice_chars(&t, i + 1, t.len());
            assert(tail@ =~= t@.skip(i + 1));
            let value = trim_chars(&tail);
            let unq = unquote_chars(&value);
            Some((string_of(key.as_slice()), string_of(unq.as_slice())))
        },
    }
}

/// What a `.env` file sets, line by line in order (a later line for the
/// same key comes later). Lines are split at `\n`; a `\r` before it is
/// whitespace and trimmed away.
pub open spec fn env_file_assignments(raw: Seq<char>) -> Seq<(Seq<char>, Seq<char>)> {
    assignments_of(split_on(raw, '\n'))
}

pub open spec fn assignments_of(lines: Seq<Seq<char>>) -> Seq<(Seq<char>, Seq<char>)>
    decreases lines.len(),
{
    if lines.len() == 0 {
        Seq::empty()
    } else {
        let rest = assignments_of(lines.drop_last());
        match env_line(lines.last()) {
            Some(kv) => rest.push(kv),
            None => rest,
        }
    }
}

pub fn parse_env_file(raw: &str) -> (r: Vec<(String, String)>)
    ensures
        r@.len() == env_file_assignments(raw@).len(),
        forall|i: int| 0 <= i < r@.len() ==> (#[trigger] r@[i]).0@ == env_file_assignments(raw@)[i].0
            && r@[i].1@ == env_file_assignments(raw@)[i].1,
{
    let v = chars_of(raw);
    let lines = split_chars(&v, '\n');
    let ghost ls = split_on(raw@, '\n');
    let mut out: Vec<(String, String)> = Vec::new();
    let mut i: usize = 0;
    while i < lines.len()
        invariant
            i <= lines@.len(),
            lines@.len() == ls.len(),
            forall|k: int| 0 <= k < lines@.len() ==> #[trigger] lines@[k]@ == ls[k],
            out@.len() == assignments_of(ls.take(i as int)).len(),
            forall|k: int| 0 <= k < out@.len() ==> (#[trigger] out@[k]).0@ == assignments_of(ls.take(i as int))[k].0
                && out@[k].1@ == assignments_of(ls.take(i as int))[k].1,
        decreases lines@.len() - i,
    {
        let ghost t = ls.take(i + 1);
        assert(t.drop_last() =~= ls.take(i as int));
        assert(t.last() == lines@[i as int]@);
        let text = string_of(lines[i].as_slice());
        let ghost before = out@;
        match parse_env_line(text.as_str()) {
            Some(kv) => {
                out.push(kv);
                assert forall|k: int| 0 <= k < out@.len() implies (#[trigger] out@[k]).0@ == assignments_of(t)[k].0
                    && out@[k].1@ == assignments_of(t)[k].1 by {
                    if k < before.len() {
                        assert(out@[k] == before[k]);
                    }
                }
            },
            None => {},
        }
        i += 1;
    }
    assert(ls.take(i as int) =~= ls);
    out
}

} // verus!
