//! Verified text utilities: character tests, substring search,
//! whitespace/line splitting, and decimal parsing and formatting.
//!
//! All contracts are stated over `Seq<char>` views; the executable
//! functions walk strings with `get_char`.

use vstd::prelude::*;
use vstd::string::StrSliceExecFns;

verus! {

// ---------------------------------------------------------------------------
// character classes
// ---------------------------------------------------------------------------

/// Whitespace as the kernel's text files use it.
pub open spec fn is_ws_char(c: char) -> bool {
    c == ' ' || c == '\t' || c == '\r'
}

/// Executable whitespace test.
pub fn ws_char(c: char) -> (r: bool)
    ensures
        r == is_ws_char(c),
{
    c == ' ' || c == '\t' || c == '\r'
}

pub open spec fn is_digit_char(c: char) -> bool {
    c == '0' || c == '1' || c == '2' || c == '3' || c == '4' || c == '5' || c == '6' || c == '7'
        || c == '8' || c == '9'
}

/// Numeric value of a decimal digit character.
pub open spec fn digit_val(c: char) -> int {
    if c == '0' {
        0
    } else if c == '1' {
        1
    } else if c == '2' {
        2
    } else if c == '3' {
        3
    } else if c == '4' {
        4
    } else if c == '5' {
        5
    } else if c == '6' {
        6
    } else if c == '7' {
        7
    } else if c == '8' {
        8
    } else {
        9
    }
}

/// Digit character for a value below ten.
pub open spec fn digit_char(d: int) -> char {
    if d == 0 {
        '0'
    } else if d == 1 {
        '1'
    } else if d == 2 {
        '2'
    } else if d == 3 {
        '3'
    } else if d == 4 {
        '4'
    } else if d == 5 {
        '5'
    } else if d == 6 {
        '6'
    } else if d == 7 {
        '7'
    } else if d == 8 {
        '8'
    } else {
        '9'
    }
}

/// Executable digit test with the digit's value.
pub fn digit_of(c: char) -> (r: Option<u64>)
    ensures
        r is Some <==> is_digit_char(c),
        r matches Some(d) ==> d == digit_val(c) && d < 10,
{
    match c {
        '0' => Some(0),
        '1' => Some(1),
        '2' => Some(2),
        '3' => Some(3),
        '4' => Some(4),
        '5' => Some(5),
        '6' => Some(6),
        '7' => Some(7),
        '8' => Some(8),
        '9' => Some(9),
        _ => None,
    }
}

pub open spec fn all_digits(s: Seq<char>) -> bool {
    forall|i: int| 0 <= i < s.len() ==> is_digit_char(#[trigger] s[i])
}

// ---------------------------------------------------------------------------
// equality, prefix, suffix, search
// ---------------------------------------------------------------------------

/// Character-wise string equality.
pub fn str_eq(a: &str, b: &str) -> (r: bool)
    ensures
        r == (a@ == b@),
{
    let alen = a.unicode_len();
    let blen = b.unicode_len();
    if alen != blen {
        return false;
    }
    let mut i: usize = 0;
    while i < alen
        invariant
            alen == a@.len(),
            blen == b@.len(),
            alen == blen,
            i <= alen,
            forall|j: int| 0 <= j < i ==> a@[j] == b@[j],
        decreases alen - i,
    {
        if a.get_char(i) != b.get_char(i) {
            return false;
        }
        i = i + 1;
    }
    proof {
        assert(a@ =~= b@);
    }
    true
}

/// `needle` occurs in `hay` starting at `at`.
pub open spec fn occurs_at(hay: Seq<char>, needle: Seq<char>, at: int) -> bool {
    0 <= at && at + needle.len() <= hay.len() && hay.subrange(at, at + needle.len()) == needle
}

/// `needle` occurs somewhere in `hay`.
pub open spec fn contains_seq(hay: Seq<char>, needle: Seq<char>) -> bool {
    exists|at: int| occurs_at(hay, needle, at)
}

/// `p` is a prefix of `s`.
pub open spec fn is_prefix(p: Seq<char>, s: Seq<char>) -> bool {
    occurs_at(s, p, 0)
}

/// `p` is a suffix of `s`.
pub open spec fn is_suffix(p: Seq<char>, s: Seq<char>) -> bool {
    occurs_at(s, p, s.len() - p.len())
}

/// Does `needle` occur in `hay` at position `at`?
pub fn occurs_at_exec(hay: &str, needle: &str, at: usize) -> (r: bool)
    requires
        at + needle@.len() <= hay@.len(),
    ensures
        r == occurs_at(hay@, needle@, at as int),
{
    let hlen = hay.unicode_len();
    let nlen = needle.unicode_len();
    let mut i: usize = 0;
    while i < nlen
        invariant
            hlen == hay@.len(),
            nlen == needle@.len(),
            at + nlen <= hay@.len(),
            i <= nlen,
            forall|j: int| 0 <= j < i ==> hay@[at + j] == needle@[j],
        decreases nlen - i,
    {
        if hay.get_char(at + i) != needle.get_char(i) {
            proof {
                assert(hay@.subrange(at as int, at + needle@.len())[i as int] != needle@[i as int]);
            }
            return false;
        }
        i = i + 1;
    }
    proof {
        assert(hay@.subrange(at as int, at + needle@.len()) =~= needle@);
    }
    true
}

/// Substring test, exact-substring semantics.
pub fn contains_str(hay: &str, needle: &str) -> (r: bool)
    ensures
        r == contains_seq(hay@, needle@),
{
    let hlen = hay.unicode_len();
    let nlen = needle.unicode_len();
    if nlen > hlen {
        proof {
            assert(forall|at: int| !occurs_at(hay@, needle@, at));
        }
        return false;
    }
    if nlen == 0 {
        proof {
            assert(hay@.subrange(0, 0) =~= needle@);
            assert(occurs_at(hay@, needle@, 0));
        }
        return true;
    }
    let mut at: usize = 0;
    while at <= hlen - nlen
        invariant
            hlen == hay@.len(),
            nlen == needle@.len(),
            1 <= nlen <= hlen,
            at <= hlen - nlen + 1,
            forall|j: int| 0 <= j < at ==> !occurs_at(hay@, needle@, j),
        decreases hlen - nlen - at + 1,
    {
        if occurs_at_exec(hay, needle, at) {
            return true;
        }
        at = at + 1;
    }
    proof {
        assert(forall|j: int| occurs_at(hay@, needle@, j) ==> 0 <= j <= hay@.len() - needle@.len());
    }
    false
}

/// Prefix test.
pub fn starts_with_str(s: &str, p: &str) -> (r: bool)
    ensures
        r == is_prefix(p@, s@),
{
    let slen = s.unicode_len();
    let plen = p.unicode_len();
    if plen > slen {
        return false;
    }
    occurs_at_exec(s, p, 0)
}

/// Suffix test.
pub fn ends_with_str(s: &str, p: &str) -> (r: bool)
    ensures
        r == is_suffix(p@, s@),
{
    let slen = s.unicode_len();
    let plen = p.unicode_len();
    if plen > slen {
        return false;
    }
    occurs_at_exec(s, p, slen - plen)
}

/// Position of the first occurrence of `c`, if any.
pub open spec fn find_char_spec(s: Seq<char>, c: char) -> Option<int>
    decreases s.len(),
{
    if s.len() == 0 {
        None
    } else if s[0] == c {
        Some(0int)
    } else {
        match find_char_spec(s.drop_first(), c) {
            Some(i) => Some(i + 1),
            None => None,
        }
    }
}

/// The first occurrence is an occurrence, and nothing earlier is one.
pub proof fn lemma_find_char(s: Seq<char>, c: char)
    ensures
        match find_char_spec(s, c) {
            Some(i) => 0 <= i < s.len() && s[i] == c && forall|j: int| 0 <= j < i ==> s[j] != c,
            None => forall|j: int| 0 <= j < s.len() ==> s[j] != c,
        },
    decreases s.len(),
{
    if s.len() > 0 && s[0] != c {
        let t = s.drop_first();
        lemma_find_char(t, c);
        assert(forall|j: int| 0 <= j < t.len() ==> t[j] == s[j + 1]);
        match find_char_spec(t, c) {
            Some(i) => {
                assert(s[i + 1] == t[i]);
                assert(forall|j: int| 1 <= j < i + 1 ==> s[j] == t[j - 1] && t[j - 1] != c);
            },
            None => {
                assert(forall|j: int| 1 <= j < s.len() ==> s[j] == t[j - 1] && t[j - 1] != c);
            },
        }
    }
}

/// Find the first occurrence of a character.
pub fn find_char(s: &str, c: char) -> (r: Option<usize>)
    ensures
        match r {
            Some(i) => find_char_spec(s@, c) == Some(i as int),
            None => find_char_spec(s@, c) is None,
        },
{
    let len = s.unicode_len();
    let mut i: usize = 0;
    while i < len
        invariant
            len == s@.len(),
            i <= len,
            forall|j: int| 0 <= j < i ==> s@[j] != c,
        decreases len - i,
    {
        if s.get_char(i) == c {
            proof {
                lemma_find_char(s@, c);
                match find_char_spec(s@, c) {
                    Some(k) => {
                        assert(!(k < i) && !(i < k));
                    },
                    None => {},
                }
            }
            return Some(i);
        }
        i = i + 1;
    }
    proof {
        lemma_find_char(s@, c);
    }
    None
}

} // verus!

verus! {

// ---------------------------------------------------------------------------
// whitespace splitting
// ---------------------------------------------------------------------------

/// End of the token starting at `i`: the first position at or after `i`
/// holding whitespace, or the end of the string.
pub open spec fn tok_end(s: Seq<char>, i: int) -> int
    decreases s.len() - i,
{
    if i < 0 || i >= s.len() || is_ws_char(s[i]) {
        i
    } else {
        tok_end(s, i + 1)
    }
}

/// Characterization of `tok_end`.
pub proof fn lemma_tok_end(s: Seq<char>, i: int)
    requires
        0 <= i <= s.len(),
    ensures
        i <= tok_end(s, i) <= s.len(),
        forall|k: int| i <= k < tok_end(s, i) ==> !is_ws_char(#[trigger] s[k]),
        tok_end(s, i) < s.len() ==> is_ws_char(s[tok_end(s, i)]),
    decreases s.len() - i,
{
    if i < s.len() && !is_ws_char(s[i]) {
        lemma_tok_end(s, i + 1);
    }
}

/// `tok_end` is the only cut obeying its characterization.
pub proof fn lemma_tok_end_is(s: Seq<char>, i: int, j: int)
    requires
        0 <= i <= j <= s.len(),
        forall|k: int| i <= k < j ==> !is_ws_char(#[trigger] s[k]),
        j == s.len() || is_ws_char(s[j]),
    ensures
        tok_end(s, i) == j,
    decreases j - i,
{
    if i < j {
        lemma_tok_end_is(s, i + 1, j);
    }
}

/// The whitespace-separated tokens of `s` from position `i` on.
pub open spec fn split_ws_from(s: Seq<char>, i: int) -> Seq<Seq<char>>
    decreases s.len() - i,
    via split_ws_from_dec
{
    if i < 0 || i >= s.len() {
        Seq::empty()
    } else if is_ws_char(s[i]) {
        split_ws_from(s, i + 1)
    } else {
        seq![s.subrange(i, tok_end(s, i))] + split_ws_from(s, tok_end(s, i))
    }
}

#[via_fn]
proof fn split_ws_from_dec(s: Seq<char>, i: int) {
    if 0 <= i < s.len() && !is_ws_char(s[i]) {
        lemma_tok_end(s, i);
        assert(tok_end(s, i) > i);
    }
}

/// The whitespace-separated tokens of `s`.
pub open spec fn split_ws_spec(s: Seq<char>) -> Seq<Seq<char>> {
    split_ws_from(s, 0)
}

/// Views of a vector of strings.
pub open spec fn views_of(v: Seq<String>) -> Seq<Seq<char>> {
    v.map_values(|t: String| t@)
}

/// First whitespace position at or after `i`, or the end.
pub fn scan_tok_end(s: &str, i: usize) -> (j: usize)
    requires
        i <= s@.len(),
    ensures
        j as int == tok_end(s@, i as int),
        i <= j <= s@.len(),
{
    let len = s.unicode_len();
    let mut j: usize = i;
    while j < len
        invariant
            len == s@.len(),
            i <= j <= len,
            forall|k: int| i <= k < j ==> !is_ws_char(#[trigger] s@[k]),
        decreases len - j,
    {
        if ws_char(s.get_char(j)) {
            proof {
                lemma_tok_end_is(s@, i as int, j as int);
            }
            return j;
        }
        j = j + 1;
    }
    proof {
        lemma_tok_end_is(s@, i as int, j as int);
    }
    j
}

/// Split on runs of whitespace; empty tokens never appear.
pub fn split_ws(s: &str) -> (r: Vec<String>)
    ensures
        views_of(r@) == split_ws_spec(s@),
{
    let len = s.unicode_len();
    let mut out: Vec<String> = Vec::new();
    let mut i: usize = 0;
    while i < len
        invariant
            len == s@.len(),
            i <= len,
            views_of(out@) + split_ws_from(s@, i as int) == split_ws_from(s@, 0),
        decreases len - i,
    {
        let c = s.get_char(i);
        if ws_char(c) {
            i = i + 1;
        } else {
            let j = scan_tok_end(s, i);
            proof {
                lemma_tok_end(s@, i + 1);
                assert(tok_end(s@, i as int) == tok_end(s@, i + 1));
                assert(j > i);
            }
            let tok = s.substring_char(i, j);
            let towned = tok.to_owned();
            proof {
                let f = |t: String| t@;
                assert(towned@ == s@.subrange(i as int, j as int));
                assert(views_of(out@.push(towned)) =~= views_of(out@).push(towned@));
                assert(split_ws_from(s@, i as int) == seq![s@.subrange(i as int, j as int)]
                    + split_ws_from(s@, j as int));
                assert(views_of(out@.push(towned)) + split_ws_from(s@, j as int) =~= views_of(out@)
                    + split_ws_from(s@, i as int));
            }
            out.push(towned);
            i = j;
        }
    }
    proof {
        assert(split_ws_from(s@, len as int) =~= Seq::empty());
        assert(views_of(out@) =~= views_of(out@) + split_ws_from(s@, len as int));
    }
    out
}

// ---------------------------------------------------------------------------
// line splitting
// ---------------------------------------------------------------------------

/// First newline at or after `i`, or the end of the string.
pub open spec fn line_end(s: Seq<char>, i: int) -> int
    decreases s.len() - i,
{
    if i < 0 || i >= s.len() || s[i] == '\n' {
        i
    } else {
        line_end(s, i + 1)
    }
}

/// Characterization of `line_end`.
pub proof fn lemma_line_end(s: Seq<char>, i: int)
    requires
        0 <= i <= s.len(),
    ensures
        i <= line_end(s, i) <= s.len(),
        forall|k: int| i <= k < line_end(s, i) ==> #[trigger] s[k] != '\n',
        line_end(s, i) < s.len() ==> s[line_end(s, i)] == '\n',
    decreases s.len() - i,
{
    if i < s.len() && s[i] != '\n' {
        lemma_line_end(s, i + 1);
    }
}

/// `line_end` is the only cut obeying its characterization.
pub proof fn lemma_line_end_is(s: Seq<char>, i: int, j: int)
    requires
        0 <= i <= j <= s.len(),
        forall|k: int| i <= k < j ==> #[trigger] s[k] != '\n',
        j == s.len() || s[j] == '\n',
    ensures
        line_end(s, i) == j,
    decreases j - i,
{
    if i < j {
        lemma_line_end_is(s, i + 1, j);
    }
}

/// A line with a trailing carriage return has it removed.
pub open spec fn strip_cr(l: Seq<char>) -> Seq<char> {
    if l.len() > 0 && l.last() == '\r' {
        l.drop_last()
    } else {
        l
    }
}

/// The lines of `s` from position `i` on, as `str::lines` cuts them:
/// terminated by a newline or by the end, with a trailing `\r` stripped.
pub open spec fn split_lines_from(s: Seq<char>, i: int) -> Seq<Seq<char>>
    decreases s.len() - i,
    via split_lines_from_dec
{
    if i < 0 || i >= s.len() {
        Seq::empty()
    } else {
        let j = line_end(s, i);
        let line = strip_cr(s.subrange(i, j));
        if j == s.len() {
            seq![line]
        } else {
            seq![line] + split_lines_from(s, j + 1)
        }
    }
}

#[via_fn]
proof fn split_lines_from_dec(s: Seq<char>, i: int) {
    if 0 <= i < s.len() {
        lemma_line_end(s, i);
    }
}

/// The lines of `s`.
pub open spec fn split_lines_spec(s: Seq<char>) -> Seq<Seq<char>> {
    split_lines_from(s, 0)
}

/// First newline at or after `i`, or the end.
fn scan_line_end(s: &str, i: usize) -> (j: usize)
    requires
        i <= s@.len(),
    ensures
        j as int == line_end(s@, i as int),
        i <= j <= s@.len(),
{
    let len = s.unicode_len();
    let mut j: usize = i;
    while j < len
        invariant
            len == s@.len(),
            i <= j <= len,
            forall|k: int| i <= k < j ==> #[trigger] s@[k] != '\n',
        decreases len - j,
    {
        if s.get_char(j) == '\n' {
            proof {
                lemma_line_end_is(s@, i as int, j as int);
            }
            return j;
        }
        j = j + 1;
    }
    proof {
        lemma_line_end_is(s@, i as int, j as int);
    }
    j
}

/// Split into lines as `str::lines` does.
pub fn split_lines(s: &str) -> (r: Vec<String>)
    ensures
        views_of(r@) == split_lines_spec(s@),
{
    let len = s.unicode_len();
    let mut out: Vec<String> = Vec::new();
    let mut i: usize = 0;
    while i < len
        invariant
            len == s@.len(),
            i <= len,
            views_of(out@) + split_lines_from(s@, i as int) == split_lines_from(s@, 0),
        decreases len - i,
    {
        let j = scan_line_end(s, i);
        let line_str = if j > i && s.get_char(j - 1) == '\r' {
            s.substring_char(i, j - 1)
        } else {
            s.substring_char(i, j)
        };
        let lowned = line_str.to_owned();
        proof {
            assert(lowned@ == strip_cr(s@.subrange(i as int, j as int))) by {
                let raw = s@.subrange(i as int, j as int);
                if j > i && s@[j - 1] == '\r' {
                    assert(raw.last() == '\r');
                    assert(raw.drop_last() =~= s@.subrange(i as int, j - 1));
                } else {
                    if raw.len() > 0 {
                        assert(raw.last() == s@[j - 1]);
                    }
                }
            }
            assert(views_of(out@.push(lowned)) =~= views_of(out@).push(lowned@));
            if j == len {
                assert(views_of(out@.push(lowned)) + split_lines_from(s@, len as int) =~= views_of(
                    out@,
                ) + split_lines_from(s@, i as int));
            } else {
                assert(split_lines_from(s@, i as int) == seq![lowned@] + split_lines_from(
                    s@,
                    j + 1,
                ));
                assert(views_of(out@.push(lowned)) + split_lines_from(s@, j + 1) =~= views_of(out@)
                    + split_lines_from(s@, i as int));
            }
        }
        out.push(lowned);
        if j == len {
            i = len;
        } else {
            i = j + 1;
        }
    }
    proof {
        assert(split_lines_from(s@, len as int) =~= Seq::empty());
        assert(views_of(out@) =~= views_of(out@) + split_lines_from(s@, len as int));
    }
    out
}

} // verus!

verus! {

// ---------------------------------------------------------------------------
// splitting of joined text
// ---------------------------------------------------------------------------

/// No whitespace anywhere in `s`.
pub open spec fn no_ws(s: Seq<char>) -> bool {
    forall|i: int| 0 <= i < s.len() ==> !is_ws_char(#[trigger] s[i])
}

/// No newline anywhere in `s`.
pub open spec fn no_nl(s: Seq<char>) -> bool {
    forall|i: int| 0 <= i < s.len() ==> #[trigger] s[i] != '\n'
}

/// Tokens joined by single spaces.
pub open spec fn join_sp(ts: Seq<Seq<char>>) -> Seq<char>
    decreases ts.len(),
{
    if ts.len() == 0 {
        Seq::empty()
    } else if ts.len() == 1 {
        ts[0]
    } else {
        ts[0] + seq![' '] + join_sp(ts.drop_first())
    }
}

/// Splitting is invariant under dropping a prefix.
pub proof fn lemma_tok_end_shift(s: Seq<char>, k: int, i: int)
    requires
        0 <= k,
        0 <= i,
        k + i <= s.len(),
    ensures
        tok_end(s, k + i) == k + tok_end(s.skip(k), i),
{
    let t = s.skip(k);
    lemma_tok_end(s, k + i);
    lemma_tok_end(t, i);
    let e = tok_end(t, i);
    assert(forall|j: int| 0 <= j < t.len() ==> t[j] == s[k + j]);
    assert forall|m: int| k + i <= m < k + e implies !is_ws_char(#[trigger] s[m]) by {
        assert(!is_ws_char(t[m - k]));
        assert(s[m] == t[m - k]);
    }
    lemma_tok_end_is(s, k + i, k + e);
}

/// Splitting from `k + i` equals splitting the suffix from `i`.
pub proof fn lemma_split_ws_shift(s: Seq<char>, k: int, i: int)
    requires
        0 <= k,
        0 <= i,
        k + i <= s.len(),
    ensures
        split_ws_from(s, k + i) == split_ws_from(s.skip(k), i),
    decreases s.len() - k - i,
{
    let t = s.skip(k);
    if k + i == s.len() {
        assert(split_ws_from(s, k + i) =~= split_ws_from(t, i));
    } else if is_ws_char(s[k + i]) {
        assert(t[i] == s[k + i]);
        lemma_split_ws_shift(s, k, i + 1);
    } else {
        assert(t[i] == s[k + i]);
        lemma_tok_end_shift(s, k, i);
        lemma_tok_end(t, i);
        let e = tok_end(t, i);
        assert(e > i) by {
            lemma_tok_end(t, i + 1);
        }
        assert(s.subrange(k + i, k + e) =~= t.subrange(i, e));
        lemma_split_ws_shift(s, k, e);
        assert(split_ws_from(s, k + i) =~= split_ws_from(t, i));
    }
}

/// Splitting a single-space join of nonempty whitespace-free tokens gives
/// the tokens back.
pub proof fn lemma_split_ws_join(ts: Seq<Seq<char>>)
    requires
        forall|i: int| 0 <= i < ts.len() ==> (#[trigger] ts[i]).len() >= 1,
        forall|i: int| 0 <= i < ts.len() ==> no_ws(#[trigger] ts[i]),
    ensures
        split_ws_spec(join_sp(ts)) == ts,
    decreases ts.len(),
{
    let s = join_sp(ts);
    if ts.len() == 0 {
        assert(split_ws_spec(s) =~= ts);
    } else if ts.len() == 1 {
        let t0 = ts[0];
        assert(s == t0);
        assert(no_ws(t0));
        assert(t0.len() >= 1);
        assert forall|k: int| 0 <= k < s.len() implies !is_ws_char(#[trigger] s[k]) by {
            assert(!is_ws_char(t0[k]));
        }
        assert(!is_ws_char(s[0]));
        lemma_tok_end_is(s, 0, s.len() as int);
        assert(tok_end(s, 0) == s.len());
        assert(split_ws_from(s, s.len() as int) =~= Seq::<Seq<char>>::empty());
        assert(split_ws_spec(s) == seq![s.subrange(0, s.len() as int)] + split_ws_from(
            s,
            s.len() as int,
        ));
        assert(s.subrange(0, s.len() as int) =~= t0);
        assert(split_ws_spec(s) =~= ts);
    } else {
        let t0 = ts[0];
        let rest = join_sp(ts.drop_first());
        assert(s == t0 + seq![' '] + rest);
        let n0 = t0.len() as int;
        assert(forall|k: int| 0 <= k < n0 ==> s[k] == t0[k] && !is_ws_char(#[trigger] t0[k]));
        assert(forall|k: int| 0 <= k < n0 ==> !is_ws_char(#[trigger] s[k]));
        assert(s[n0] == ' ');
        lemma_tok_end_is(s, 0, n0);
        assert(s.subrange(0, n0) =~= t0);
        assert(!is_ws_char(s[0]));
        assert(split_ws_spec(s) == seq![t0] + split_ws_from(s, n0));
        assert(split_ws_from(s, n0) == split_ws_from(s, n0 + 1));
        lemma_split_ws_shift(s, n0 + 1, 0);
        assert(s.skip(n0 + 1) =~= rest);
        lemma_split_ws_join(ts.drop_first());
        assert(split_ws_spec(s) =~= seq![t0] + ts.drop_first());
        assert(seq![t0] + ts.drop_first() =~= ts);
    }
}

/// `line_end` is invariant under dropping a prefix.
pub proof fn lemma_line_end_shift(s: Seq<char>, k: int, i: int)
    requires
        0 <= k,
        0 <= i,
        k + i <= s.len(),
    ensures
        line_end(s, k + i) == k + line_end(s.skip(k), i),
{
    let t = s.skip(k);
    lemma_line_end(s, k + i);
    lemma_line_end(t, i);
    let e = line_end(t, i);
    assert(forall|j: int| 0 <= j < t.len() ==> t[j] == s[k + j]);
    assert forall|m: int| k + i <= m < k + e implies #[trigger] s[m] != '\n' by {
        assert(t[m - k] != '\n');
        assert(s[m] == t[m - k]);
    }
    lemma_line_end_is(s, k + i, k + e);
}

/// Splitting lines from `k + i` equals splitting the suffix from `i`.
pub proof fn lemma_split_lines_shift(s: Seq<char>, k: int, i: int)
    requires
        0 <= k,
        0 <= i,
        k + i <= s.len(),
    ensures
        split_lines_from(s, k + i) == split_lines_from(s.skip(k), i),
    decreases s.len() - k - i,
{
    let t = s.skip(k);
    if k + i >= s.len() {
        assert(split_lines_from(s, k + i) =~= split_lines_from(t, i));
    } else {
        lemma_line_end_shift(s, k, i);
        lemma_line_end(t, i);
        let e = line_end(t, i);
        assert(s.subrange(k + i, k + e) =~= t.subrange(i, e));
        if k + e == s.len() {
            assert(split_lines_from(s, k + i) =~= split_lines_from(t, i));
        } else {
            lemma_split_lines_shift(s, k, e + 1);
            assert(split_lines_from(s, k + i) =~= split_lines_from(t, i));
        }
    }
}

/// Splitting two newline-terminated, newline-free lines that do not end in
/// a carriage return gives the two lines.
pub proof fn lemma_split_two_lines(l1: Seq<char>, l2: Seq<char>)
    requires
        no_nl(l1),
        no_nl(l2),
        l1.len() > 0 ==> l1.last() != '\r',
        l2.len() > 0 ==> l2.last() != '\r',
    ensures
        split_lines_spec(l1 + seq!['\n'] + l2 + seq!['\n']) == seq![l1, l2],
{
    let s = l1 + seq!['\n'] + l2 + seq!['\n'];
    let n1 = l1.len() as int;
    assert(forall|k: int| 0 <= k < n1 ==> s[k] == l1[k] && #[trigger] l1[k] != '\n');
    assert(forall|k: int| 0 <= k < n1 ==> #[trigger] s[k] != '\n');
    assert(s[n1] == '\n');
    lemma_line_end_is(s, 0, n1);
    assert(s.subrange(0, n1) =~= l1);
    assert(strip_cr(l1) == l1);
    assert(n1 < s.len());
    assert(split_lines_spec(s) == seq![l1] + split_lines_from(s, n1 + 1));
    lemma_split_lines_shift(s, n1 + 1, 0);
    let t = s.skip(n1 + 1);
    assert(t =~= l2 + seq!['\n']);
    let n2 = l2.len() as int;
    assert(forall|k: int| 0 <= k < n2 ==> t[k] == l2[k] && #[trigger] l2[k] != '\n');
    assert(forall|k: int| 0 <= k < n2 ==> #[trigger] t[k] != '\n');
    assert(t[n2] == '\n');
    lemma_line_end_is(t, 0, n2);
    assert(t.subrange(0, n2) =~= l2);
    assert(strip_cr(l2) == l2);
    assert(n2 < t.len());
    assert(split_lines_from(t, 0) == seq![l2] + split_lines_from(t, n2 + 1));
    assert(split_lines_from(t, n2 + 1) =~= Seq::empty());
    assert(split_lines_spec(s) =~= seq![l1, l2]);
}

} // verus!

verus! {

/// Concatenation preserves freedom from whitespace.
pub proof fn lemma_no_ws_concat(a: Seq<char>, b: Seq<char>)
    requires
        no_ws(a),
        no_ws(b),
    ensures
        no_ws(a + b),
{
    let s = a + b;
    assert forall|i: int| 0 <= i < s.len() implies !is_ws_char(#[trigger] s[i]) by {
        if i < a.len() {
            assert(s[i] == a[i]);
        } else {
            assert(s[i] == b[i - a.len()]);
        }
    }
}

/// Digit characters are ordinary text: no whitespace, no newline.
pub proof fn lemma_digit_char_plain(c: char)
    requires
        is_digit_char(c),
    ensures
        !is_ws_char(c),
        c != '\n',
{
}

/// A string of digits is ordinary text.
pub proof fn lemma_all_digits_plain(s: Seq<char>)
    requires
        all_digits(s),
    ensures
        no_ws(s),
        no_nl(s),
{
    assert forall|i: int| 0 <= i < s.len() implies !is_ws_char(#[trigger] s[i]) && s[i] != '\n' by {
        assert(is_digit_char(s[i]));
    }
}

} // verus!

verus! {

// ---------------------------------------------------------------------------
// first occurrence of a substring
// ---------------------------------------------------------------------------

/// The first position where `needle` occurs in `hay`, if any.
pub open spec fn find_sub_spec(hay: Seq<char>, needle: Seq<char>) -> Option<int> {
    if contains_seq(hay, needle) {
        Some(choose|at: int| occurs_at(hay, needle, at) && forall|j: int| 0 <= j < at ==> !occurs_at(hay, needle, j))
    } else {
        None
    }
}

/// Find the first occurrence of `needle`.
pub fn find_sub(hay: &str, needle: &str) -> (r: Option<usize>)
    ensures
        match r {
            Some(at) => occurs_at(hay@, needle@, at as int) && forall|j: int|
                0 <= j < at ==> !occurs_at(hay@, needle@, j),
            None => !contains_seq(hay@, needle@),
        },
{
    let hlen = hay.unicode_len();
    let nlen = needle.unicode_len();
    if nlen > hlen {
        proof {
            assert(forall|at: int| !occurs_at(hay@, needle@, at));
        }
        return None;
    }
    if nlen == 0 {
        proof {
            assert(hay@.subrange(0, 0) =~= needle@);
        }
        return Some(0);
    }
    let mut at: usize = 0;
    while at <= hlen - nlen
        invariant
            hlen == hay@.len(),
            nlen == needle@.len(),
            1 <= nlen <= hlen,
            at <= hlen - nlen + 1,
            forall|j: int| 0 <= j < at ==> !occurs_at(hay@, needle@, j),
        decreases hlen - nlen - at + 1,
    {
        if occurs_at_exec(hay, needle, at) {
            return Some(at);
        }
        at = at + 1;
    }
    proof {
        assert(forall|j: int| occurs_at(hay@, needle@, j) ==> 0 <= j <= hay@.len() - needle@.len());
    }
    None
}

// ---------------------------------------------------------------------------
// trimming
// ---------------------------------------------------------------------------

/// Whitespace for trimming purposes: blanks and line ends.
pub open spec fn is_trim_char(c: char) -> bool {
    is_ws_char(c) || c == '\n'
}

/// `s` without leading trim characters.
pub open spec fn trim_front(s: Seq<char>) -> Seq<char>
    decreases s.len(),
{
    if s.len() > 0 && is_trim_char(s[0]) {
        trim_front(s.drop_first())
    } else {
        s
    }
}

/// `s` without trailing trim characters.
pub open spec fn trim_back(s: Seq<char>) -> Seq<char>
    decreases s.len(),
{
    if s.len() > 0 && is_trim_char(s.last()) {
        trim_back(s.drop_last())
    } else {
        s
    }
}

/// `s` without leading and trailing trim characters.
pub open spec fn trim_spec(s: Seq<char>) -> Seq<char> {
    trim_back(trim_front(s))
}

/// `trim_front` cuts exactly the leading run of trim characters.
proof fn lemma_trim_front_is(s: Seq<char>, a: int)
    requires
        0 <= a <= s.len(),
        forall|j: int| 0 <= j < a ==> is_trim_char(#[trigger] s[j]),
        a == s.len() || !is_trim_char(s[a]),
    ensures
        trim_front(s) == s.skip(a),
    decreases a,
{
    if a == 0 {
        assert(s.skip(0) =~= s);
    } else {
        let t = s.drop_first();
        assert(forall|j: int| 0 <= j < a - 1 ==> t[j] == s[j + 1]);
        lemma_trim_front_is(t, a - 1);
        assert(t.skip(a - 1) =~= s.skip(a));
    }
}

/// `trim_back` cuts exactly the trailing run of trim characters.
proof fn lemma_trim_back_is(s: Seq<char>, b: int)
    requires
        0 <= b <= s.len(),
        forall|j: int| b <= j < s.len() ==> is_trim_char(#[trigger] s[j]),
        b == 0 || !is_trim_char(s[b - 1]),
    ensures
        trim_back(s) == s.take(b),
    decreases s.len() - b,
{
    if b == s.len() {
        assert(s.take(b) =~= s);
    } else {
        let t = s.drop_last();
        lemma_trim_back_is(t, b);
        assert(t.take(b) =~= s.take(b));
    }
}

/// Length of the leading run of trim characters.
fn scan_trim_front(s: &str) -> (a: usize)
    ensures
        a <= s@.len(),
        forall|j: int| 0 <= j < a ==> is_trim_char(#[trigger] s@[j]),
        a < s@.len() ==> !is_trim_char(s@[a as int]),
{
    let len = s.unicode_len();
    let mut a: usize = 0;
    while a < len
        invariant
            len == s@.len(),
            a <= len,
            forall|j: int| 0 <= j < a ==> is_trim_char(#[trigger] s@[j]),
        decreases len - a,
    {
        let c = s.get_char(a);
        if !(ws_char(c) || c == '\n') {
            return a;
        }
        a = a + 1;
    }
    a
}

/// End of the text once trailing trim characters are cut, scanning back
/// to a known non-trim position.
fn scan_trim_back(s: &str, a: usize) -> (b: usize)
    requires
        a < s@.len(),
        !is_trim_char(s@[a as int]),
    ensures
        a < b <= s@.len(),
        forall|j: int| b <= j < s@.len() ==> is_trim_char(#[trigger] s@[j]),
        !is_trim_char(s@[b - 1]),
{
    let len = s.unicode_len();
    let mut b: usize = len;
    while b > a + 1
        invariant
            len == s@.len(),
            a < b <= len,
            !is_trim_char(s@[a as int]),
            forall|j: int| b <= j < len ==> is_trim_char(#[trigger] s@[j]),
        decreases b,
    {
        let c = s.get_char(b - 1);
        if !(ws_char(c) || c == '\n') {
            return b;
        }
        b = b - 1;
    }
    b
}

/// Trim characters off both ends.
pub fn trim_str(s: &str) -> (r: String)
    ensures
        r@ == trim_spec(s@),
{
    let len = s.unicode_len();
    let a = scan_trim_front(s);
    if a == len {
        proof {
            lemma_trim_front_is(s@, len as int);
            assert(s@.skip(len as int).len() == 0);
            assert(trim_back(s@.skip(len as int)) =~= s@.skip(len as int));
            assert(trim_spec(s@) =~= Seq::<char>::empty());
        }
        return String::new();
    }
    proof {
        lemma_trim_front_is(s@, a as int);
    }
    let b = scan_trim_back(s, a);
    let sub = s.substring_char(a, b);
    let r = sub.to_owned();
    proof {
        let f = s@.skip(a as int);
        assert(forall|j: int| 0 <= j < f.len() ==> f[j] == s@[j + a]);
        assert(forall|j: int| b - a <= j < f.len() ==> is_trim_char(#[trigger] f[j])) by {
            assert(forall|j: int|
                b - a <= j < f.len() ==> is_trim_char(#[trigger] s@[j + a]) && f[j] == s@[j + a]);
        }
        assert(f[b - a - 1] == s@[b - 1]);
        lemma_trim_back_is(f, b - a);
        assert(f.take(b - a) =~= s@.subrange(a as int, b as int));
        assert(r@ == trim_spec(s@));
    }
    r
}

} // verus!

verus! {

/// Relies on `String::push`: appends exactly the one character.
#[verifier::external_body]
pub fn push_char(s: &mut String, c: char)
    ensures
        final(s)@ == old(s)@.push(c),
{
    s.push(c);
}

/// An ASCII capital mapped to its small form; all else unchanged.
pub open spec fn lower_char(c: char) -> char {
    if c == 'A' {
        'a'
    } else if c == 'B' {
        'b'
    } else if c == 'C' {
        'c'
    } else if c == 'D' {
        'd'
    } else if c == 'E' {
        'e'
    } else if c == 'F' {
        'f'
    } else if c == 'G' {
        'g'
    } else if c == 'H' {
        'h'
    } else if c == 'I' {
        'i'
    } else if c == 'J' {
        'j'
    } else if c == 'K' {
        'k'
    } else if c == 'L' {
        'l'
    } else if c == 'M' {
        'm'
    } else if c == 'N' {
        'n'
    } else if c == 'O' {
        'o'
    } else if c == 'P' {
        'p'
    } else if c == 'Q' {
        'q'
    } else if c == 'R' {
        'r'
    } else if c == 'S' {
        's'
    } else if c == 'T' {
        't'
    } else if c == 'U' {
        'u'
    } else if c == 'V' {
        'v'
    } else if c == 'W' {
        'w'
    } else if c == 'X' {
        'x'
    } else if c == 'Y' {
        'y'
    } else if c == 'Z' {
        'z'
    } else {
        c
    }
}

/// The ASCII-lowered text.
pub open spec fn lower_seq(s: Seq<char>) -> Seq<char> {
    s.map_values(|c: char| lower_char(c))
}

/// Lower ASCII capitals, character by character.
pub fn to_ascii_lower(s: &str) -> (r: String)
    ensures
        r@ == lower_seq(s@),
{
    let len = s.unicode_len();
    let mut out = String::new();
    let mut i: usize = 0;
    while i < len
        invariant
            len == s@.len(),
            i <= len,
            out@ == lower_seq(s@.subrange(0, i as int)),
        decreases len - i,
    {
        let c = s.get_char(i);
        let lc = match c {
            'A' => 'a',
            'B' => 'b',
            'C' => 'c',
            'D' => 'd',
            'E' => 'e',
            'F' => 'f',
            'G' => 'g',
            'H' => 'h',
            'I' => 'i',
            'J' => 'j',
            'K' => 'k',
            'L' => 'l',
            'M' => 'm',
            'N' => 'n',
            'O' => 'o',
            'P' => 'p',
            'Q' => 'q',
            'R' => 'r',
            'S' => 's',
            'T' => 't',
            'U' => 'u',
            'V' => 'v',
            'W' => 'w',
            'X' => 'x',
            'Y' => 'y',
            'Z' => 'z',
            other => other,
        };
        push_char(&mut out, lc);
        proof {
            assert(lc == lower_char(s@[i as int]));
            assert(out@ =~= lower_seq(s@.subrange(0, i + 1)));
        }
        i = i + 1;
    }
    proof {
        assert(s@.subrange(0, len as int) =~= s@);
    }
    out
}

} // verus!
