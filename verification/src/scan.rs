//! Index scans over character sequences: the first line break, the first
//! (non-)whitespace position, the first non-separator position. These are the
//! spec-level backbone of request parsing and path joining.

use vstd::prelude::*;

verus! {

/// Whitespace that separates the tokens of a request line. The line itself
/// ends at a line feed, so a carriage return counts as plain whitespace.
pub open spec fn is_request_ws(c: char) -> bool {
    c == ' ' || c == '\t' || c == '\r'
}

/// The first position at or after `i` that holds a line feed, or the length
/// when there is none.
pub open spec fn find_nl(s: Seq<char>, i: int) -> int
    decreases s.len() - i,
{
    if i < 0 || i >= s.len() {
        s.len() as int
    } else if s[i] == '\n' {
        i
    } else {
        find_nl(s, i + 1)
    }
}

pub proof fn lemma_find_nl(s: Seq<char>, i: int)
    requires
        0 <= i <= s.len(),
    ensures
        i <= find_nl(s, i) <= s.len(),
        find_nl(s, i) < s.len() ==> s[find_nl(s, i)] == '\n',
        forall|j: int| i <= j < find_nl(s, i) ==> s[j] != '\n',
    decreases s.len() - i,
{
    if i < s.len() && s[i] != '\n' {
        lemma_find_nl(s, i + 1);
    }
}

/// The first position at or after `i` whose character is whitespace (when
/// `ws` is true) or non-whitespace (when `ws` is false), or the length when
/// there is none.
pub open spec fn find_ws_boundary(s: Seq<char>, i: int, ws: bool) -> int
    decreases s.len() - i,
{
    if i < 0 || i >= s.len() {
        s.len() as int
    } else if is_request_ws(s[i]) == ws {
        i
    } else {
        find_ws_boundary(s, i + 1, ws)
    }
}

pub proof fn lemma_find_ws_boundary(s: Seq<char>, i: int, ws: bool)
    requires
        0 <= i <= s.len(),
    ensures
        i <= find_ws_boundary(s, i, ws) <= s.len(),
        find_ws_boundary(s, i, ws) < s.len() ==> is_request_ws(s[find_ws_boundary(s, i, ws)])
            == ws,
        forall|j: int| i <= j < find_ws_boundary(s, i, ws) ==> is_request_ws(s[j]) != ws,
    decreases s.len() - i,
{
    if i < s.len() && is_request_ws(s[i]) != ws {
        lemma_find_ws_boundary(s, i + 1, ws);
    }
}

/// The first position at or after `i` whose character is not a path
/// separator, or the length when there is none.
pub open spec fn find_non_sep(s: Seq<char>, i: int) -> int
    decreases s.len() - i,
{
    if i < 0 || i >= s.len() {
        s.len() as int
    } else if s[i] != '/' {
        i
    } else {
        find_non_sep(s, i + 1)
    }
}

pub proof fn lemma_find_non_sep(s: Seq<char>, i: int)
    requires
        0 <= i <= s.len(),
    ensures
        i <= find_non_sep(s, i) <= s.len(),
        find_non_sep(s, i) < s.len() ==> s[find_non_sep(s, i)] != '/',
        forall|j: int| i <= j < find_non_sep(s, i) ==> s[j] == '/',
    decreases s.len() - i,
{
    if i < s.len() && s[i] == '/' {
        lemma_find_non_sep(s, i + 1);
    }
}

/// Whether `c` is request-line whitespace, as executable code.
pub fn is_ws_char(c: char) -> (r: bool)
    ensures
        r == is_request_ws(c),
{
    c == ' ' || c == '\t' || c == '\r'
}

} // verus!
