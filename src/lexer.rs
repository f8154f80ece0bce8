use vstd::prelude::*;
use crate::error::MergeError;

verus! {

/// White space between tokens.
pub open spec fn is_ws(c: char) -> bool {
    c == ' ' || c == '\t' || c == '\n' || c == '\r'
}

/// A character that can start an identifier: an ASCII letter, `_`, or a
/// character outside ASCII (which path segments then leave to syn).
pub open spec fn is_ident_start(c: char) -> bool {
    ('a' <= c && c <= 'z') || ('A' <= c && c <= 'Z') || c == '_' || '\u{80}' <= c
}

/// A character that can continue an identifier.
pub open spec fn is_ident_char(c: char) -> bool {
    is_ident_start(c) || ('0' <= c && c <= '9')
}

/// The first position at or after `i` that is not white space.
pub open spec fn skip_ws(s: Seq<char>, i: int) -> int
    decreases s.len() - i,
{
    if 0 <= i < s.len() && is_ws(s[i]) {
        skip_ws(s, i + 1)
    } else {
        i
    }
}

/// The first position at or after `i` that does not continue an identifier.
pub open spec fn ident_end(s: Seq<char>, i: int) -> int
    decreases s.len() - i,
{
    if 0 <= i < s.len() && is_ident_char(s[i]) {
        ident_end(s, i + 1)
    } else {
        i
    }
}

/// The identifier that starts after white space at `i`, and where it ends.
/// A raw identifier keeps its `r#`.
pub open spec fn word(s: Seq<char>, i: int) -> Result<(Seq<char>, int), MergeError> {
    let j = skip_ws(s, i);
    if 0 <= j && j + 2 < s.len() && s[j] == 'r' && s[j + 1] == '#' && is_ident_start(s[j + 2]) {
        let e = ident_end(s, j + 3);
        Ok((s.subrange(j, e), e))
    } else if j < s.len() && is_ident_start(s[j]) {
        let e = ident_end(s, j + 1);
        Ok((s.subrange(j, e), e))
    } else {
        Err(MergeError::Syntax { pos: j as usize })
    }
}

/// The character `c` after white space at `i`, and the position after it.
pub open spec fn punct(s: Seq<char>, i: int, c: char) -> Result<int, MergeError> {
    let j = skip_ws(s, i);
    if j < s.len() && s[j] == c {
        Ok(j + 1)
    } else {
        Err(MergeError::Syntax { pos: j as usize })
    }
}

/// Where a double-quoted literal whose contents start at `k` ends: after its
/// closing quote. A backslash makes the character after it part of the
/// contents.
pub open spec fn quoted_end(s: Seq<char>, k: int) -> Option<int>
    decreases s.len() - k,
{
    if k < 0 || k >= s.len() {
        None
    } else if s[k] == '"' {
        Some(k + 1)
    } else if s[k] == '\\' {
        if k + 1 < s.len() {
            quoted_end(s, k + 2)
        } else {
            None
        }
    } else {
        quoted_end(s, k + 1)
    }
}

/// The first position at or after `k` that is not `#`.
pub open spec fn hashes_end(s: Seq<char>, k: int) -> int
    decreases s.len() - k,
{
    if 0 <= k < s.len() && s[k] == '#' {
        hashes_end(s, k + 1)
    } else {
        k
    }
}

/// A quote followed by `h` hashes stands at `k`: the end of a raw literal
/// opened with `h` hashes.
pub open spec fn closes_raw(s: Seq<char>, k: int, h: int) -> bool {
    &&& 0 <= k < s.len()
    &&& s[k] == '"'
    &&& k + 1 + h <= s.len()
    &&& forall|x: int| k + 1 <= x < k + 1 + h ==> #[trigger] s[x] == '#'
}

/// Where a raw literal opened with `h` hashes, whose contents start at `k`,
/// ends.
pub open spec fn raw_end(s: Seq<char>, k: int, h: int) -> Option<int>
    decreases s.len() - k,
{
    if k < 0 || k >= s.len() {
        None
    } else if closes_raw(s, k, h) {
        Some(k + 1 + h)
    } else {
        raw_end(s, k + 1, h)
    }
}

/// Where an identifier suffix that starts at `e` ends (`e` where there is none).
pub open spec fn suffix_end(s: Seq<char>, e: int) -> int {
    if 0 <= e < s.len() && is_ident_start(s[e]) {
        ident_end(s, e + 1)
    } else {
        e
    }
}

/// Where the string literal token that starts at `j` ends: `"..."` or
/// `r#"..."#` with any number of hashes, and an optional suffix.
pub open spec fn str_token_end(s: Seq<char>, j: int) -> Option<int> {
    let body = if 0 <= j < s.len() && s[j] == '"' {
        quoted_end(s, j + 1)
    } else if 0 <= j < s.len() && s[j] == 'r' {
        let q = hashes_end(s, j + 1);
        if q < s.len() && s[q] == '"' {
            raw_end(s, q + 1, q - (j + 1))
        } else {
            None
        }
    } else {
        None
    };
    match body {
        Some(e) => Some(suffix_end(s, e)),
        None => None,
    }
}

/// The value that syn gives a string literal written as `lit`, where it
/// reads `lit` as one.
pub uninterp spec fn lit_str_value(lit: Seq<char>) -> Option<Seq<char>>;

/// Relies on syn::LitStr: its parse accepts exactly the text of one string
/// literal, and `value` gives the characters that the literal stands for
/// (escapes, raw strings and line continuations resolved).
#[verifier::external_body]
fn string_literal_value(lit: &str) -> (r: Option<String>)
    ensures
        match r {
            Some(v) => lit_str_value(lit@) == Some(v@),
            None => lit_str_value(lit@) is None,
        },
{
    match syn::parse_str::<syn::LitStr>(lit) {
        Ok(l) => Some(l.value()),
        Err(_) => None,
    }
}

/// The string literal after white space at `i`: its value and where it ends.
pub open spec fn lit_str(s: Seq<char>, i: int) -> Result<(Seq<char>, int), MergeError> {
    let j = skip_ws(s, i);
    match str_token_end(s, j) {
        Some(e) => match lit_str_value(s.subrange(j, e)) {
            Some(v) => Ok((v, e)),
            None => Err(MergeError::Syntax { pos: j as usize }),
        },
        None => Err(MergeError::Syntax { pos: j as usize }),
    }
}

/// A path segment that syn accepts as written in `seg`.
pub uninterp spec fn path_segment_ok(seg: Seq<char>) -> bool;

/// Relies on syn::PathSegment: its parse accepts the text of one path
/// segment (an identifier that is no keyword, a raw identifier, or one of
/// `crate`, `self`, `super`, `Self`).
#[verifier::external_body]
pub(crate) fn is_path_segment(seg: &str) -> (r: bool)
    ensures
        r == path_segment_ok(seg@),
{
    syn::parse_str::<syn::PathSegment>(seg).is_ok()
}

pub fn is_ws_char(c: char) -> (r: bool)
    ensures
        r == is_ws(c),
{
    c == ' ' || c == '\t' || c == '\n' || c == '\r'
}

/// Exec form of `is_ident_start`.
pub fn is_ident_start_char(c: char) -> (r: bool)
    ensures
        r == is_ident_start(c),
{
    ('a' <= c && c <= 'z') || ('A' <= c && c <= 'Z') || c == '_' || '\u{80}' <= c
}

/// Exec form of `is_ident_char`.
pub fn is_ident_char_exec(c: char) -> (r: bool)
    ensures
        r == is_ident_char(c),
{
    is_ident_start_char(c) || ('0' <= c && c <= '9')
}

/// Exec form of `skip_ws`; `n` is the length of `t`.
pub fn skip_ws_exec(t: &str, n: usize, i: usize) -> (r: usize)
    requires
        n == t@.len(),
        i <= n,
    ensures
        r == skip_ws(t@, i as int),
        i <= r <= n,
{
    let mut j = i;
    while j < n && is_ws_char(t.get_char(j))
        invariant
            n == t@.len(),
            i <= j <= n,
            skip_ws(t@, j as int) == skip_ws(t@, i as int),
        decreases n - j,
    {
        j += 1;
    }
    j
}

/// Exec form of `ident_end`.
pub fn ident_end_exec(t: &str, n: usize, i: usize) -> (r: usize)
    requires
        n == t@.len(),
        i <= n,
    ensures
        r == ident_end(t@, i as int),
        i <= r <= n,
{
    let mut j = i;
    while j < n && is_ident_char_exec(t.get_char(j))
        invariant
            n == t@.len(),
            i <= j <= n,
            ident_end(t@, j as int) == ident_end(t@, i as int),
        decreases n - j,
    {
        j += 1;
    }
    j
}

/// Exec form of `word`.
pub fn word_exec(t: &str, n: usize, i: usize) -> (r: Result<(String, usize), MergeError>)
    requires
        n == t@.len(),
        i <= n,
    ensures
        match word(t@, i as int) {
            Ok((w, e)) => r is Ok && r->Ok_0.0@ == w && r->Ok_0.1 == e && i < e <= n && w.len() > 0,
            Err(x) => r == Err::<(String, usize), MergeError>(x),
        },
{
    let j = skip_ws_exec(t, n, i);
    if j < n && 2 < n - j && t.get_char(j) == 'r' && t.get_char(j + 1) == '#' && is_ident_start_char(
        t.get_char(j + 2),
    ) {
        let e = ident_end_exec(t, n, j + 3);
        Ok((String::from_str(t.substring_char(j, e)), e))
    } else if j < n && is_ident_start_char(t.get_char(j)) {
        let e = ident_end_exec(t, n, j + 1);
        Ok((String::from_str(t.substring_char(j, e)), e))
    } else {
        Err(MergeError::Syntax { pos: j })
    }
}

/// Exec form of `punct`.
pub fn punct_exec(t: &str, n: usize, i: usize, c: char) -> (r: Result<usize, MergeError>)
    requires
        n == t@.len(),
        i <= n,
    ensures
        match punct(t@, i as int, c) {
            Ok(e) => r == Ok::<usize, MergeError>(e as usize) && i < e <= n,
            Err(x) => r == Err::<usize, MergeError>(x),
        },
{
    let j = skip_ws_exec(t, n, i);
    if j < n && t.get_char(j) == c {
        Ok(j + 1)
    } else {
        Err(MergeError::Syntax { pos: j })
    }
}

/// Exec form of `quoted_end`.
fn quoted_end_exec(t: &str, n: usize, k: usize) -> (r: Option<usize>)
    requires
        n == t@.len(),
        k <= n,
    ensures
        match quoted_end(t@, k as int) {
            Some(e) => r == Some(e as usize) && k < e <= n,
            None => r is None,
        },
{
    let mut m = k;
    while m < n
        invariant
            n == t@.len(),
            k <= m <= n,
            quoted_end(t@, m as int) == quoted_end(t@, k as int),
        decreases n - m,
    {
        let c = t.get_char(m);
        if c == '"' {
            return Some(m + 1);
        } else if c == '\\' {
            if m + 1 < n {
                m += 2;
            } else {
                return None;
            }
        } else {
            m += 1;
        }
    }
    None
}

/// Exec form of `hashes_end`.
fn hashes_end_exec(t: &str, n: usize, k: usize) -> (r: usize)
    requires
        n == t@.len(),
        k <= n,
    ensures
        r == hashes_end(t@, k as int),
        k <= r <= n,
{
    let mut m = k;
    while m < n && t.get_char(m) == '#'
        invariant
            n == t@.len(),
            k <= m <= n,
            hashes_end(t@, m as int) == hashes_end(t@, k as int),
        decreases n - m,
    {
        m += 1;
    }
    m
}

/// Exec form of `closes_raw`.
fn closes_raw_exec(t: &str, n: usize, k: usize, h: usize) -> (r: bool)
    requires
        n == t@.len(),
        k < n,
    ensures
        r == closes_raw(t@, k as int, h as int),
{
    if t.get_char(k) != '"' || h > n - (k + 1) {
        return false;
    }
    let mut m: usize = 0;
    while m < h
        invariant
            n == t@.len(),
            k < n,
            k + 1 + h <= n,
            m <= h,
            forall|x: int| k + 1 <= x < k + 1 + m ==> #[trigger] t@[x] == '#',
        decreases h - m,
    {
        if t.get_char(k + 1 + m) != '#' {
            return false;
        }
        m += 1;
    }
    true
}

/// Exec form of `raw_end`.
fn raw_end_exec(t: &str, n: usize, k: usize, h: usize) -> (r: Option<usize>)
    requires
        n == t@.len(),
        k <= n,
    ensures
        match raw_end(t@, k as int, h as int) {
            Some(e) => r == Some(e as usize) && k < e <= n,
            None => r is None,
        },
{
    let mut m = k;
    while m < n
        invariant
            n == t@.len(),
            k <= m <= n,
            raw_end(t@, m as int, h as int) == raw_end(t@, k as int, h as int),
        decreases n - m,
    {
        if closes_raw_exec(t, n, m, h) {
            return Some(m + 1 + h);
        }
        m += 1;
    }
    None
}

/// Exec form of `str_token_end`.
fn str_token_end_exec(t: &str, n: usize, j: usize) -> (r: Option<usize>)
    requires
        n == t@.len(),
        j <= n,
    ensures
        match str_token_end(t@, j as int) {
            Some(e) => r == Some(e as usize) && j < e <= n,
            None => r is None,
        },
{
    if j >= n {
        return None;
    }
    let c = t.get_char(j);
    let body = if c == '"' {
        quoted_end_exec(t, n, j + 1)
    } else if c == 'r' {
        let q = hashes_end_exec(t, n, j + 1);
        if q < n && t.get_char(q) == '"' {
            raw_end_exec(t, n, q + 1, q - (j + 1))
        } else {
            None
        }
    } else {
        None
    };
    match body {
        Some(e) => if e < n && is_ident_start_char(t.get_char(e)) {
            Some(ident_end_exec(t, n, e + 1))
        } else {
            Some(e)
        },
        None => None,
    }
}

/// Exec form of `lit_str`.
pub fn lit_str_exec(t: &str, n: usize, i: usize) -> (r: Result<(String, usize), MergeError>)
    requires
        n == t@.len(),
        i <= n,
    ensures
        match lit_str(t@, i as int) {
            Ok((v, e)) => r is Ok && r->Ok_0.0@ == v && r->Ok_0.1 == e && i < e <= n,
            Err(x) => r == Err::<(String, usize), MergeError>(x),
        },
{
    let j = skip_ws_exec(t, n, i);
    match str_token_end_exec(t, n, j) {
        Some(e) => match string_literal_value(t.substring_char(j, e)) {
            Some(v) => Ok((v, e)),
            None => Err(MergeError::Syntax { pos: j }),
        },
        None => Err(MergeError::Syntax { pos: j }),
    }
}

} // verus!
