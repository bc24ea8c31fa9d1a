//! Verified decimal text: `u64` to digits and back, and fixed-point
//! hundredths ("12.50" is carried as the integer `1250`).

use vstd::prelude::*;
use vstd::string::StrSliceExecFns;
use vstd::string::StringExecFns;

use crate::text::{all_digits, digit_char, digit_of, digit_val, find_char_spec, is_digit_char};
use crate::text;

verus! {

// ---------------------------------------------------------------------------
// decimal formatting
// ---------------------------------------------------------------------------

/// Decimal digit string of `n`, most significant digit first.
pub open spec fn dec_str(n: nat) -> Seq<char>
    decreases n,
{
    if n < 10 {
        seq![digit_char(n as int)]
    } else {
        dec_str(n / 10).push(digit_char((n % 10) as int))
    }
}

/// Numeric value of a digit string.
pub open spec fn dec_val(s: Seq<char>) -> nat
    decreases s.len(),
{
    if s.len() == 0 {
        0
    } else {
        (dec_val(s.drop_last()) * 10 + digit_val(s.last())) as nat
    }
}

/// Formatting then evaluating gives the number back.
pub proof fn lemma_dec_str_val(n: nat)
    ensures
        dec_val(dec_str(n)) == n,
        all_digits(dec_str(n)),
        dec_str(n).len() >= 1,
    decreases n,
{
    assert(is_digit_char(digit_char((n % 10) as int)));
    if n < 10 {
        let s = dec_str(n);
        assert(s =~= seq![digit_char(n as int)]);
        assert(s.drop_last() =~= Seq::<char>::empty());
        assert(dec_val(s.drop_last()) == 0);
        assert(digit_val(digit_char(n as int)) == n);
        assert(is_digit_char(digit_char(n as int)));
        assert forall|i: int| 0 <= i < s.len() implies is_digit_char(s[i]) by {
            assert(s[i] == digit_char(n as int));
        }
    } else {
        lemma_dec_str_val(n / 10);
        let s = dec_str(n);
        let p = dec_str(n / 10);
        assert(s.drop_last() =~= p);
        assert(s.last() == digit_char((n % 10) as int));
        assert(digit_val(digit_char((n % 10) as int)) == n % 10);
        assert(dec_val(s) == (n / 10) * 10 + n % 10);
        assert forall|i: int| 0 <= i < s.len() implies is_digit_char(s[i]) by {
            if i < s.len() - 1 {
                assert(s[i] == p[i]);
                assert(is_digit_char(p[i]));
            } else {
                assert(s[i] == digit_char((n % 10) as int));
            }
        }
    }
}

/// One digit as a string slice.
fn digit_str(d: u64) -> (r: &'static str)
    requires
        d < 10,
    ensures
        r@ =~= seq![digit_char(d as int)],
{
    proof {
        reveal_strlit("0");
        reveal_strlit("1");
        reveal_strlit("2");
        reveal_strlit("3");
        reveal_strlit("4");
        reveal_strlit("5");
        reveal_strlit("6");
        reveal_strlit("7");
        reveal_strlit("8");
        reveal_strlit("9");
    }
    match d {
        0 => "0",
        1 => "1",
        2 => "2",
        3 => "3",
        4 => "4",
        5 => "5",
        6 => "6",
        7 => "7",
        8 => "8",
        _ => "9",
    }
}

/// Format `n` in decimal.
pub fn u64_to_string(n: u64) -> (r: String)
    ensures
        r@ == dec_str(n as nat),
    decreases n,
{
    if n < 10 {
        digit_str(n).to_owned()
    } else {
        let mut s = u64_to_string(n / 10);
        s.append(digit_str(n % 10));
        proof {
            assert(s@ =~= dec_str((n / 10) as nat).push(digit_char((n % 10) as int)));
        }
        s
    }
}

// ---------------------------------------------------------------------------
// decimal parsing
// ---------------------------------------------------------------------------

/// The value of any digit extension is at least the value of the prefix.
proof fn lemma_dec_val_prefix(s: Seq<char>, i: int)
    requires
        0 <= i <= s.len(),
    ensures
        dec_val(s) >= dec_val(s.subrange(0, i)),
    decreases s.len() - i,
{
    if i == s.len() {
        assert(s.subrange(0, i) =~= s);
    } else {
        lemma_dec_val_prefix(s.drop_last(), i);
        assert(s.drop_last().subrange(0, i) =~= s.subrange(0, i));
    }
}

/// Parse an unsigned decimal integer; `None` on empty input, a non-digit,
/// or a value above `u64::MAX`.
pub fn parse_u64(s: &str) -> (r: Option<u64>)
    ensures
        r is Some <==> s@.len() >= 1 && all_digits(s@) && dec_val(s@) <= u64::MAX,
        r matches Some(v) ==> v == dec_val(s@),
{
    let len = s.unicode_len();
    if len == 0 {
        return None;
    }
    let mut acc: u64 = 0;
    let mut i: usize = 0;
    while i < len
        invariant
            len == s@.len(),
            1 <= len,
            i <= len,
            all_digits(s@.subrange(0, i as int)),
            acc == dec_val(s@.subrange(0, i as int)),
        decreases len - i,
    {
        let c = s.get_char(i);
        let d = match digit_of(c) {
            Some(d) => d,
            None => {
                return None;
            },
        };
        if acc > (u64::MAX - d) / 10 {
            proof {
                let t = s@.subrange(0, i + 1);
                assert(t.drop_last() =~= s@.subrange(0, i as int));
                assert(dec_val(t) == acc * 10 + d);
                assert(acc * 10 + d > u64::MAX);
                if all_digits(s@) {
                    lemma_dec_val_prefix(s@, i + 1);
                }
            }
            return None;
        }
        proof {
            let t = s@.subrange(0, i + 1);
            assert(t.drop_last() =~= s@.subrange(0, i as int));
            assert(t.last() == s@[i as int]);
        }
        acc = acc * 10 + d;
        i = i + 1;
    }
    proof {
        assert(s@.subrange(0, len as int) =~= s@);
    }
    Some(acc)
}

// ---------------------------------------------------------------------------
// fixed-point hundredths
// ---------------------------------------------------------------------------

/// Canonical text of a hundredths value: whole part, a dot, two digits.
pub open spec fn centi_str(v: nat) -> Seq<char> {
    dec_str(v / 100) + seq!['.', digit_char((v % 100 / 10) as int), digit_char((v % 10) as int)]
}

/// A digit string optionally followed by a dot and one or two digits.
pub open spec fn centi_ok(s: Seq<char>) -> bool {
    match find_char_spec(s, '.') {
        Some(i) => {
            let whole = s.subrange(0, i);
            let frac = s.subrange(i + 1, s.len() as int);
            whole.len() >= 1 && all_digits(whole) && 1 <= frac.len() <= 2 && all_digits(frac)
        },
        None => s.len() >= 1 && all_digits(s),
    }
}

/// Value in hundredths of such a string.
pub open spec fn centi_val(s: Seq<char>) -> nat {
    match find_char_spec(s, '.') {
        Some(i) => {
            let whole = s.subrange(0, i);
            let frac = s.subrange(i + 1, s.len() as int);
            if frac.len() == 1 {
                dec_val(whole) * 100 + dec_val(frac) * 10
            } else {
                dec_val(whole) * 100 + dec_val(frac)
            }
        },
        None => dec_val(s) * 100,
    }
}

/// Parse a decimal fraction into hundredths; `None` when the text is not
/// `digits[.digits]` with one or two fraction digits, or does not fit.
pub fn parse_centi(s: &str) -> (r: Option<u64>)
    ensures
        r is Some <==> centi_ok(s@) && centi_val(s@) <= u64::MAX,
        r matches Some(v) ==> v == centi_val(s@),
{
    let len = s.unicode_len();
    match find_char(s) {
        Some(i) => {
            let whole = s.substring_char(0, i);
            let frac = s.substring_char(i + 1, len);
            proof {
                assert(whole@ =~= s@.subrange(0, i as int));
                assert(frac@ =~= s@.subrange(i + 1, s@.len() as int));
            }
            let fl = frac.unicode_len();
            if fl == 0 || fl > 2 {
                return None;
            }
            let w = match parse_u64(whole) {
                Some(w) => w,
                None => {
                    return None;
                },
            };
            let f = match parse_u64(frac) {
                Some(f) => f,
                None => {
                    return None;
                },
            };
            proof {
                lemma_dec_val_small(frac@);
            }
            let f100: u64 = if fl == 1 {
                f * 10
            } else {
                f
            };
            if w > (u64::MAX - f100) / 100 {
                return None;
            }
            Some(w * 100 + f100)
        },
        None => {
            match parse_u64(s) {
                Some(w) => {
                    if w > u64::MAX / 100 {
                        None
                    } else {
                        Some(w * 100)
                    }
                },
                None => None,
            }
        },
    }
}

/// A digit string of length at most two is worth less than one hundred.
proof fn lemma_dec_val_small(s: Seq<char>)
    requires
        all_digits(s),
        s.len() <= 2,
    ensures
        s.len() == 1 ==> dec_val(s) <= 9,
        s.len() == 2 ==> dec_val(s) <= 99,
{
    if s.len() == 1 {
        assert(s.drop_last().len() == 0);
        assert(dec_val(s.drop_last()) == 0);
        assert(digit_val(s.last()) <= 9);
    } else if s.len() == 2 {
        assert(s.drop_last().drop_last().len() == 0);
        assert(dec_val(s.drop_last().drop_last()) == 0);
        assert(dec_val(s.drop_last()) == digit_val(s.drop_last().last()));
        assert(dec_val(s.drop_last()) <= 9);
        assert(digit_val(s.last()) <= 9);
    }
}

/// Find the dot, if any.
fn find_char(s: &str) -> (r: Option<usize>)
    ensures
        match r {
            Some(i) => find_char_spec(s@, '.') == Some(i as int) && 0 <= i < s@.len(),
            None => find_char_spec(s@, '.') is None,
        },
{
    let r = text::find_char(s, '.');
    proof {
        text::lemma_find_char(s@, '.');
    }
    r
}

/// Format a hundredths value with two decimals.
pub fn centi_to_string(v: u64) -> (r: String)
    ensures
        r@ == centi_str(v as nat),
{
    let mut s = u64_to_string(v / 100);
    proof {
        reveal_strlit(".");
    }
    s.append(".");
    s.append(digit_str(v % 100 / 10));
    s.append(digit_str(v % 10));
    proof {
        assert(v % 100 / 10 < 10) by {
            assert(v % 100 < 100);
        }
        assert(s@ =~= centi_str(v as nat));
    }
    s
}

/// Round trip: formatting a hundredths value and parsing it back is exact.
pub proof fn lemma_centi_round_trip(v: nat)
    ensures
        centi_ok(centi_str(v)),
        centi_val(centi_str(v)) == v,
{
    let w = dec_str(v / 100);
    let s = centi_str(v);
    let tail = seq![digit_char((v % 100 / 10) as int), digit_char((v % 10) as int)];
    lemma_dec_str_val(v / 100);
    lemma_find_no_dot(w);
    assert(is_digit_char(tail[0]));
    assert(is_digit_char(tail[1]));
    assert(all_digits(tail));
    lemma_find_no_dot(tail);
    lemma_find_append_dot(w, tail);
    assert(s =~= w + seq!['.'] + tail);
    let i = w.len() as int;
    assert(find_char_spec(s, '.') == find_char_spec(w + seq!['.'] + tail, '.'));
    assert(find_char_spec(s, '.') == Some(i));
    let whole = s.subrange(0, i);
    let frac = s.subrange(i + 1, s.len() as int);
    assert(whole =~= w);
    assert(frac =~= tail);
    assert(frac.drop_last() =~= seq![digit_char((v % 100 / 10) as int)]);
    assert(frac.drop_last().drop_last() =~= Seq::<char>::empty());
    assert(dec_val(frac.drop_last().drop_last()) == 0);
    assert(dec_val(frac.drop_last()) == digit_val(digit_char((v % 100 / 10) as int)));
    assert(frac.last() == digit_char((v % 10) as int));
    assert(dec_val(frac) == digit_val(digit_char((v % 100 / 10) as int)) * 10 + digit_val(
        digit_char((v % 10) as int),
    ));
    assert(digit_val(digit_char((v % 100 / 10) as int)) == v % 100 / 10);
    assert(digit_val(digit_char((v % 10) as int)) == v % 10);
    assert(v % 100 / 10 * 10 + v % 10 == v % 100) by (nonlinear_arith);
    assert(dec_val(whole) * 100 + dec_val(frac) == v / 100 * 100 + v % 100);
    assert(v / 100 * 100 + v % 100 == v) by (nonlinear_arith);
}

/// A pure digit string holds no dot.
proof fn lemma_find_no_dot(s: Seq<char>)
    requires
        all_digits(s),
    ensures
        find_char_spec(s, '.') is None,
    decreases s.len(),
{
    if s.len() > 0 {
        assert(is_digit_char(s[0]));
        lemma_find_no_dot(s.drop_first());
    }
}

/// Appending a dot and a tail to a dotless string puts the first dot at
/// the boundary.
proof fn lemma_find_append_dot(w: Seq<char>, tail: Seq<char>)
    requires
        find_char_spec(w, '.') is None,
        find_char_spec(tail, '.') is None,
    ensures
        find_char_spec(w + seq!['.'] + tail, '.') == Some(w.len() as int),
    decreases w.len(),
{
    let s = w + seq!['.'] + tail;
    if w.len() == 0 {
        assert(s[0] == '.');
    } else {
        text::lemma_find_char(w, '.');
        assert(s[0] == w[0]);
        assert(s[0] != '.');
        lemma_find_append_dot(w.drop_first(), tail);
        assert(s.drop_first() =~= w.drop_first() + seq!['.'] + tail);
    }
}

} // verus!

verus! {

/// The text of a number is ordinary: no whitespace, no newline, and it
/// ends in a digit.
pub proof fn lemma_dec_str_plain(n: nat)
    ensures
        text::no_ws(dec_str(n)),
        text::no_nl(dec_str(n)),
        is_digit_char(dec_str(n).last()),
        dec_str(n).len() >= 1,
{
    lemma_dec_str_val(n);
    text::lemma_all_digits_plain(dec_str(n));
    if n < 10 {
        assert(dec_str(n).last() == digit_char(n as int));
    } else {
        assert(dec_str(n).last() == digit_char((n % 10) as int));
    }
}

/// The text of a hundredths value is ordinary: no whitespace, no newline,
/// and it ends in a digit.
pub proof fn lemma_centi_str_plain(v: nat)
    ensures
        text::no_ws(centi_str(v)),
        text::no_nl(centi_str(v)),
        is_digit_char(centi_str(v).last()),
        centi_str(v).len() >= 1,
{
    let s = centi_str(v);
    let w = dec_str(v / 100);
    lemma_dec_str_plain(v / 100);
    lemma_dec_str_val(v / 100);
    assert forall|i: int| 0 <= i < s.len() implies !text::is_ws_char(#[trigger] s[i]) && s[i]
        != '\n' by {
        if i < w.len() {
            assert(s[i] == w[i]);
            assert(is_digit_char(w[i]));
        } else if i == w.len() {
            assert(s[i] == '.');
        } else {
            assert(is_digit_char(s[i]));
        }
    }
    assert(s.last() == digit_char((v % 10) as int));
}

} // verus!

verus! {

/// Signed decimal text: a minus sign for negatives, then the digits.
pub open spec fn int_str(v: int) -> Seq<char> {
    if v < 0 {
        seq!['-'] + dec_str((-v) as nat)
    } else {
        dec_str(v as nat)
    }
}

/// Format a signed value in decimal.
pub fn i32_to_string(v: i32) -> (r: String)
    ensures
        r@ == int_str(v as int),
{
    if v >= 0 {
        u64_to_string(v as u64)
    } else {
        proof {
            reveal_strlit("-");
        }
        let mut m = "-".to_owned();
        let mag = -(v as i64);
        let d = u64_to_string(mag as u64);
        m.append(d.as_str());
        proof {
            assert(m@ =~= int_str(v as int));
        }
        m
    }
}

} // verus!
