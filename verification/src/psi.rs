//! Kernel memory-pressure telemetry: the two-line PSI text format, its
//! verified parser and emitter, and the threshold tests.
//!
//! Stall percentages are carried in hundredths of a percent (`1250`
//! means `12.50 %`), so parsing is exact and emitting then parsing is
//! the identity.

use vstd::prelude::*;
use vstd::string::StrSliceExecFns;
use vstd::string::StringExecFns;

use crate::errors::Error;
use crate::num::{
    centi_ok, centi_str, centi_val, dec_str, dec_val, centi_to_string, lemma_centi_round_trip,
    lemma_centi_str_plain, lemma_dec_str_plain, lemma_dec_str_val, parse_centi, parse_u64,
    u64_to_string,
};
use crate::text::{
    all_digits, is_prefix, join_sp, lemma_no_ws_concat, lemma_split_two_lines,
    lemma_split_ws_join, no_nl, no_ws, split_lines, split_lines_spec, split_ws, split_ws_spec,
    starts_with_str, views_of,
};

verus! {

/// Memory-pressure averages and totals, from the kernel's PSI interface.
///
/// `some` is the share of time at least one task stalled on memory;
/// `full` the share of time all tasks stalled. Averages are in
/// hundredths of a percent over the 10, 60 and 300 second windows.
#[derive(Debug, Clone, Copy, PartialEq, Eq, Structural)]
pub struct MemoryPressure {
    pub some_avg10: u64,
    pub some_avg60: u64,
    pub some_avg300: u64,
    pub some_total: u64,
    pub full_avg10: u64,
    pub full_avg60: u64,
    pub full_avg300: u64,
    pub full_total: u64,
}

// ---------------------------------------------------------------------------
// key=value pieces
// ---------------------------------------------------------------------------

/// `part` is `key` followed by a parsable fraction that fits.
pub open spec fn kv_centi_ok(part: Seq<char>, key: Seq<char>) -> bool {
    &&& is_prefix(key, part)
    &&& centi_ok(part.skip(key.len() as int))
    &&& centi_val(part.skip(key.len() as int)) <= u64::MAX
}

/// The hundredths value behind `key`.
pub open spec fn kv_centi_val(part: Seq<char>, key: Seq<char>) -> nat {
    centi_val(part.skip(key.len() as int))
}

/// `part` is `key` followed by a decimal integer that fits.
pub open spec fn kv_int_ok(part: Seq<char>, key: Seq<char>) -> bool {
    &&& is_prefix(key, part)
    &&& part.skip(key.len() as int).len() >= 1
    &&& all_digits(part.skip(key.len() as int))
    &&& dec_val(part.skip(key.len() as int)) <= u64::MAX
}

/// The integer value behind `key`.
pub open spec fn kv_int_val(part: Seq<char>, key: Seq<char>) -> nat {
    dec_val(part.skip(key.len() as int))
}

// ---------------------------------------------------------------------------
// line and file grammar
// ---------------------------------------------------------------------------

/// One PSI line: it opens with the expected word and its five
/// whitespace-separated fields carry the three averages and the total.
pub open spec fn psi_line_ok(l: Seq<char>, prefix: Seq<char>) -> bool {
    let parts = split_ws_spec(l);
    &&& is_prefix(prefix, l)
    &&& parts.len() == 5
    &&& kv_centi_ok(parts[1], "avg10="@)
    &&& kv_centi_ok(parts[2], "avg60="@)
    &&& kv_centi_ok(parts[3], "avg300="@)
    &&& kv_int_ok(parts[4], "total="@)
}

/// The four numbers of one PSI line.
pub open spec fn psi_line_vals(l: Seq<char>) -> (nat, nat, nat, nat) {
    let parts = split_ws_spec(l);
    (
        kv_centi_val(parts[1], "avg10="@),
        kv_centi_val(parts[2], "avg60="@),
        kv_centi_val(parts[3], "avg300="@),
        kv_int_val(parts[4], "total="@),
    )
}

/// A full PSI reading: a `some` line, then a `full` line.
pub open spec fn psi_ok(content: Seq<char>) -> bool {
    let ls = split_lines_spec(content);
    &&& ls.len() >= 2
    &&& psi_line_ok(ls[0], "some"@)
    &&& psi_line_ok(ls[1], "full"@)
}

/// The reading a well-formed PSI text denotes.
pub open spec fn psi_of(content: Seq<char>) -> MemoryPressure {
    let ls = split_lines_spec(content);
    let s = psi_line_vals(ls[0]);
    let f = psi_line_vals(ls[1]);
    MemoryPressure {
        some_avg10: s.0 as u64,
        some_avg60: s.1 as u64,
        some_avg300: s.2 as u64,
        some_total: s.3 as u64,
        full_avg10: f.0 as u64,
        full_avg60: f.1 as u64,
        full_avg300: f.2 as u64,
        full_total: f.3 as u64,
    }
}

impl MemoryPressure {
    /// Parse `key=value` into hundredths.
    pub fn parse_value(part: &str, expected_key: &str) -> (r: Result<u64, Error>)
        ensures
            r is Ok <==> kv_centi_ok(part@, expected_key@),
            r matches Ok(v) ==> v == kv_centi_val(part@, expected_key@),
            r is Err ==> r->Err_0 is Parse,
    {
        if !starts_with_str(part, expected_key) {
            return Err(Error::Parse("PSI field does not carry the expected key".to_owned()));
        }
        let klen = expected_key.unicode_len();
        let plen = part.unicode_len();
        let rest = part.substring_char(klen, plen);
        proof {
            assert(rest@ =~= part@.skip(expected_key@.len() as int));
        }
        match parse_centi(rest) {
            Some(v) => Ok(v),
            None => Err(Error::Parse("PSI field value is not a decimal fraction".to_owned())),
        }
    }

    /// Parse `key=value` into an integer.
    pub fn parse_int_value(part: &str, expected_key: &str) -> (r: Result<u64, Error>)
        ensures
            r is Ok <==> kv_int_ok(part@, expected_key@),
            r matches Ok(v) ==> v == kv_int_val(part@, expected_key@),
            r is Err ==> r->Err_0 is Parse,
    {
        if !starts_with_str(part, expected_key) {
            return Err(Error::Parse("PSI field does not carry the expected key".to_owned()));
        }
        let klen = expected_key.unicode_len();
        let plen = part.unicode_len();
        let rest = part.substring_char(klen, plen);
        proof {
            assert(rest@ =~= part@.skip(expected_key@.len() as int));
        }
        match parse_u64(rest) {
            Some(v) => Ok(v),
            None => Err(Error::Parse("PSI field value is not an integer".to_owned())),
        }
    }

    /// Parse one PSI line into its three averages and total.
    pub fn parse_line(line: &str, expected_prefix: &str) -> (r: Result<
        (u64, u64, u64, u64),
        Error,
    >)
        ensures
            r is Ok <==> psi_line_ok(line@, expected_prefix@),
            r matches Ok(t) ==> {
                let v = psi_line_vals(line@);
                t.0 == v.0 && t.1 == v.1 && t.2 == v.2 && t.3 == v.3
            },
            r is Err ==> r->Err_0 is Parse,
    {
        if !starts_with_str(line, expected_prefix) {
            return Err(Error::Parse("PSI line does not open with the expected word".to_owned()));
        }
        let parts = split_ws(line);
        if parts.len() != 5 {
            return Err(Error::Parse("PSI line does not have five fields".to_owned()));
        }
        proof {
            assert(parts@[1]@ == split_ws_spec(line@)[1]);
            assert(parts@[2]@ == split_ws_spec(line@)[2]);
            assert(parts@[3]@ == split_ws_spec(line@)[3]);
            assert(parts@[4]@ == split_ws_spec(line@)[4]);
        }
        let avg10 = match Self::parse_value(parts[1].as_str(), "avg10=") {
            Ok(v) => v,
            Err(e) => {
                return Err(e);
            },
        };
        let avg60 = match Self::parse_value(parts[2].as_str(), "avg60=") {
            Ok(v) => v,
            Err(e) => {
                return Err(e);
            },
        };
        let avg300 = match Self::parse_value(parts[3].as_str(), "avg300=") {
            Ok(v) => v,
            Err(e) => {
                return Err(e);
            },
        };
        let total = match Self::parse_int_value(parts[4].as_str(), "total=") {
            Ok(v) => v,
            Err(e) => {
                return Err(e);
            },
        };
        Ok((avg10, avg60, avg300, total))
    }

    /// Parse the kernel's two-line PSI text.
    pub fn parse(content: &str) -> (r: Result<MemoryPressure, Error>)
        ensures
            r is Ok <==> psi_ok(content@),
            r matches Ok(p) ==> p == psi_of(content@),
            r is Err ==> r->Err_0 is Parse,
    {
        let lines = split_lines(content);
        if lines.len() < 2 {
            return Err(Error::Parse("Invalid PSI format: expected 2 lines".to_owned()));
        }
        proof {
            assert(lines@[0]@ == split_lines_spec(content@)[0]);
            assert(lines@[1]@ == split_lines_spec(content@)[1]);
        }
        let some_vals = match Self::parse_line(lines[0].as_str(), "some") {
            Ok(t) => t,
            Err(e) => {
                return Err(e);
            },
        };
        let full_vals = match Self::parse_line(lines[1].as_str(), "full") {
            Ok(t) => t,
            Err(e) => {
                return Err(e);
            },
        };
        Ok(
            MemoryPressure {
                some_avg10: some_vals.0,
                some_avg60: some_vals.1,
                some_avg300: some_vals.2,
                some_total: some_vals.3,
                full_avg10: full_vals.0,
                full_avg60: full_vals.1,
                full_avg300: full_vals.2,
                full_total: full_vals.3,
            },
        )
    }

    /// Warning when either ten-second average reaches its threshold.
    pub fn is_warning(&self, some_threshold: u64, full_threshold: u64) -> (r: bool)
        ensures
            r == (self.some_avg10 >= some_threshold || self.full_avg10 >= full_threshold),
    {
        self.some_avg10 >= some_threshold || self.full_avg10 >= full_threshold
    }

    /// Critical when either ten-second average reaches its threshold.
    pub fn is_critical(&self, some_threshold: u64, full_threshold: u64) -> (r: bool)
        ensures
            r == (self.some_avg10 >= some_threshold || self.full_avg10 >= full_threshold),
    {
        self.some_avg10 >= some_threshold || self.full_avg10 >= full_threshold
    }

    /// Coarse label: any full stall is critical, then bands of `some`.
    pub fn status(&self) -> (r: &'static str)
        ensures
            r@ == status_text(*self),
    {
        if self.full_avg10 > 0 {
            "CRITICAL"
        } else if self.some_avg10 > 1000 {
            "HIGH"
        } else if self.some_avg10 > 500 {
            "MEDIUM"
        } else if self.some_avg10 > 0 {
            "LOW"
        } else {
            "NONE"
        }
    }

    /// Render the reading in the kernel's own two-line format.
    pub fn emit(&self) -> (r: String)
        ensures
            r@ == psi_text(*self),
    {
        let mut m = String::new();
        append_psi_line(&mut m, "some", self.some_avg10, self.some_avg60, self.some_avg300, self.some_total);
        append_psi_line(&mut m, "full", self.full_avg10, self.full_avg60, self.full_avg300, self.full_total);
        proof {
            assert(m@ =~= psi_text(*self));
        }
        m
    }
}

/// The label `status` returns.
pub open spec fn status_text(p: MemoryPressure) -> Seq<char> {
    if p.full_avg10 > 0 {
        "CRITICAL"@
    } else if p.some_avg10 > 1000 {
        "HIGH"@
    } else if p.some_avg10 > 500 {
        "MEDIUM"@
    } else if p.some_avg10 > 0 {
        "LOW"@
    } else {
        "NONE"@
    }
}

/// One PSI line as its five space-joined fields.
pub open spec fn psi_line_text(prefix: Seq<char>, a10: nat, a60: nat, a300: nat, tot: nat) -> Seq<
    char,
> {
    join_sp(
        seq![
            prefix,
            "avg10="@ + centi_str(a10),
            "avg60="@ + centi_str(a60),
            "avg300="@ + centi_str(a300),
            "total="@ + dec_str(tot),
        ],
    )
}

/// The full two-line PSI text of a reading.
pub open spec fn psi_text(p: MemoryPressure) -> Seq<char> {
    psi_line_text("some"@, p.some_avg10 as nat, p.some_avg60 as nat, p.some_avg300 as nat, p.some_total as nat)
        + seq!['\n'] + psi_line_text(
        "full"@,
        p.full_avg10 as nat,
        p.full_avg60 as nat,
        p.full_avg300 as nat,
        p.full_total as nat,
    ) + seq!['\n']
}

/// Append one rendered PSI line and its newline.
fn append_psi_line(m: &mut String, prefix: &str, a10: u64, a60: u64, a300: u64, tot: u64)
    ensures
        final(m)@ == old(m)@ + psi_line_text(prefix@, a10 as nat, a60 as nat, a300 as nat, tot as nat)
            + seq!['\n'],
{
    let ghost start = m@;
    m.append(prefix);
    m.append(" ");
    m.append("avg10=");
    let c10 = centi_to_string(a10);
    m.append(c10.as_str());
    m.append(" ");
    m.append("avg60=");
    let c60 = centi_to_string(a60);
    m.append(c60.as_str());
    m.append(" ");
    m.append("avg300=");
    let c300 = centi_to_string(a300);
    m.append(c300.as_str());
    m.append(" ");
    m.append("total=");
    let t = u64_to_string(tot);
    m.append(t.as_str());
    m.append("\n");
    proof {
        reveal_strlit(" ");
        reveal_strlit("\n");
        reveal_with_fuel(crate::text::join_sp, 6);
        assert(m@ =~= start + psi_line_text(
            prefix@,
            a10 as nat,
            a60 as nat,
            a300 as nat,
            tot as nat,
        ) + seq!['\n']);
    }
}

// ---------------------------------------------------------------------------
// the emit/parse round trip
// ---------------------------------------------------------------------------

/// The fields of a rendered PSI line are nonempty and whitespace-free.
proof fn lemma_psi_line_tokens(prefix: Seq<char>, a10: nat, a60: nat, a300: nat, tot: nat)
    requires
        no_ws(prefix),
        prefix.len() >= 1,
    ensures
        split_ws_spec(psi_line_text(prefix, a10, a60, a300, tot)) == seq![
            prefix,
            "avg10="@ + centi_str(a10),
            "avg60="@ + centi_str(a60),
            "avg300="@ + centi_str(a300),
            "total="@ + dec_str(tot),
        ],
{
    reveal_strlit("avg10=");
    reveal_strlit("avg60=");
    reveal_strlit("avg300=");
    reveal_strlit("total=");
    let ts = seq![
        prefix,
        "avg10="@ + centi_str(a10),
        "avg60="@ + centi_str(a60),
        "avg300="@ + centi_str(a300),
        "total="@ + dec_str(tot),
    ];
    lemma_centi_str_plain(a10);
    lemma_centi_str_plain(a60);
    lemma_centi_str_plain(a300);
    lemma_dec_str_plain(tot);
    assert(no_ws("avg10="@)) by {
        assert forall|i: int| 0 <= i < "avg10="@.len() implies !crate::text::is_ws_char(
            #[trigger] "avg10="@[i],
        ) by {}
    }
    assert(no_ws("avg60="@)) by {
        assert forall|i: int| 0 <= i < "avg60="@.len() implies !crate::text::is_ws_char(
            #[trigger] "avg60="@[i],
        ) by {}
    }
    assert(no_ws("avg300="@)) by {
        assert forall|i: int| 0 <= i < "avg300="@.len() implies !crate::text::is_ws_char(
            #[trigger] "avg300="@[i],
        ) by {}
    }
    assert(no_ws("total="@)) by {
        assert forall|i: int| 0 <= i < "total="@.len() implies !crate::text::is_ws_char(
            #[trigger] "total="@[i],
        ) by {}
    }
    lemma_no_ws_concat("avg10="@, centi_str(a10));
    lemma_no_ws_concat("avg60="@, centi_str(a60));
    lemma_no_ws_concat("avg300="@, centi_str(a300));
    lemma_no_ws_concat("total="@, dec_str(tot));
    assert forall|i: int| 0 <= i < ts.len() implies (#[trigger] ts[i]).len() >= 1 && no_ws(
        ts[i],
    ) by {
        if i == 0 {
        } else if i == 1 {
            assert(ts[1].len() >= "avg10="@.len());
        } else if i == 2 {
        } else if i == 3 {
        } else {
        }
    }
    lemma_split_ws_join(ts);
}

/// A rendered PSI line is newline-free and does not end in a carriage
/// return.
proof fn lemma_psi_line_plain(prefix: Seq<char>, a10: nat, a60: nat, a300: nat, tot: nat)
    requires
        no_ws(prefix),
        no_nl(prefix),
        prefix.len() >= 1,
    ensures
        no_nl(psi_line_text(prefix, a10, a60, a300, tot)),
        psi_line_text(prefix, a10, a60, a300, tot).len() > 0,
        psi_line_text(prefix, a10, a60, a300, tot).last() != '\r',
{
    reveal_strlit("avg10=");
    reveal_strlit("avg60=");
    reveal_strlit("avg300=");
    reveal_strlit("total=");
    reveal_with_fuel(crate::text::join_sp, 6);
    let l = psi_line_text(prefix, a10, a60, a300, tot);
    lemma_centi_str_plain(a10);
    lemma_centi_str_plain(a60);
    lemma_centi_str_plain(a300);
    lemma_dec_str_plain(tot);
    lemma_dec_str_val(tot);
    let t4 = "total="@ + dec_str(tot);
    let flat = prefix + seq![' '] + ("avg10="@ + centi_str(a10)) + seq![' '] + ("avg60="@
        + centi_str(a60)) + seq![' '] + ("avg300="@ + centi_str(a300)) + seq![' '] + t4;
    assert(l =~= flat);
    assert forall|i: int| 0 <= i < l.len() implies #[trigger] l[i] != '\n' by {
        let p1 = prefix.len() as int;
        let p2 = p1 + 1 + "avg10="@.len() + centi_str(a10).len();
        let p3 = p2 + 1 + "avg60="@.len() + centi_str(a60).len();
        let p4 = p3 + 1 + "avg300="@.len() + centi_str(a300).len();
        if i < p1 {
            assert(l[i] == prefix[i]);
        } else if i == p1 || i == p2 || i == p3 || i == p4 {
            assert(l[i] == ' ');
        } else if i < p2 {
            if i - p1 - 1 < "avg10="@.len() {
                assert(l[i] == "avg10="@[i - p1 - 1]);
            } else {
                assert(l[i] == centi_str(a10)[i - p1 - 1 - "avg10="@.len()]);
            }
        } else if i < p3 {
            if i - p2 - 1 < "avg60="@.len() {
                assert(l[i] == "avg60="@[i - p2 - 1]);
            } else {
                assert(l[i] == centi_str(a60)[i - p2 - 1 - "avg60="@.len()]);
            }
        } else if i < p4 {
            if i - p3 - 1 < "avg300="@.len() {
                assert(l[i] == "avg300="@[i - p3 - 1]);
            } else {
                assert(l[i] == centi_str(a300)[i - p3 - 1 - "avg300="@.len()]);
            }
        } else {
            if i - p4 - 1 < "total="@.len() {
                assert(l[i] == "total="@[i - p4 - 1]);
            } else {
                assert(l[i] == dec_str(tot)[i - p4 - 1 - "total="@.len()]);
            }
        }
    }
    assert(l.last() == dec_str(tot).last());
}

/// A rendered `key=value` field parses back to its value.
proof fn lemma_kv_centi(key: Seq<char>, v: nat)
    requires
        v <= u64::MAX,
    ensures
        kv_centi_ok(key + centi_str(v), key),
        kv_centi_val(key + centi_str(v), key) == v,
{
    let part = key + centi_str(v);
    lemma_centi_round_trip(v);
    assert(part.subrange(0, key.len() as int) =~= key);
    assert(part.skip(key.len() as int) =~= centi_str(v));
}

/// A rendered integer field parses back to its value.
proof fn lemma_kv_int(key: Seq<char>, v: nat)
    requires
        v <= u64::MAX,
    ensures
        kv_int_ok(key + dec_str(v), key),
        kv_int_val(key + dec_str(v), key) == v,
{
    let part = key + dec_str(v);
    lemma_dec_str_val(v);
    assert(part.subrange(0, key.len() as int) =~= key);
    assert(part.skip(key.len() as int) =~= dec_str(v));
}

/// Emitting a reading and parsing the text back returns the same
/// reading, field for field.
pub proof fn lemma_psi_round_trip(p: MemoryPressure)
    ensures
        psi_ok(psi_text(p)),
        psi_of(psi_text(p)) == p,
{
    reveal_strlit("some");
    reveal_strlit("full");
    reveal_strlit("avg10=");
    reveal_strlit("avg60=");
    reveal_strlit("avg300=");
    reveal_strlit("total=");
    let sp = "some"@;
    let fp = "full"@;
    assert(no_ws(sp) && no_nl(sp)) by {
        assert forall|i: int| 0 <= i < sp.len() implies !crate::text::is_ws_char(#[trigger] sp[i])
            && sp[i] != '\n' by {}
    }
    assert(no_ws(fp) && no_nl(fp)) by {
        assert forall|i: int| 0 <= i < fp.len() implies !crate::text::is_ws_char(#[trigger] fp[i])
            && fp[i] != '\n' by {}
    }
    let l1 = psi_line_text(sp, p.some_avg10 as nat, p.some_avg60 as nat, p.some_avg300 as nat, p.some_total as nat);
    let l2 = psi_line_text(fp, p.full_avg10 as nat, p.full_avg60 as nat, p.full_avg300 as nat, p.full_total as nat);
    lemma_psi_line_plain(sp, p.some_avg10 as nat, p.some_avg60 as nat, p.some_avg300 as nat, p.some_total as nat);
    lemma_psi_line_plain(fp, p.full_avg10 as nat, p.full_avg60 as nat, p.full_avg300 as nat, p.full_total as nat);
    assert(psi_text(p) =~= l1 + seq!['\n'] + l2 + seq!['\n']);
    lemma_split_two_lines(l1, l2);
    assert(split_lines_spec(psi_text(p)) == seq![l1, l2]);
    lemma_psi_one_line(sp, p.some_avg10 as nat, p.some_avg60 as nat, p.some_avg300 as nat, p.some_total as nat);
    lemma_psi_one_line(fp, p.full_avg10 as nat, p.full_avg60 as nat, p.full_avg300 as nat, p.full_total as nat);
    assert(psi_of(psi_text(p)) == p);
}

/// One rendered line satisfies the line grammar and carries its values.
proof fn lemma_psi_one_line(prefix: Seq<char>, a10: nat, a60: nat, a300: nat, tot: nat)
    requires
        no_ws(prefix),
        prefix.len() >= 1,
        a10 <= u64::MAX,
        a60 <= u64::MAX,
        a300 <= u64::MAX,
        tot <= u64::MAX,
    ensures
        psi_line_ok(psi_line_text(prefix, a10, a60, a300, tot), prefix),
        psi_line_vals(psi_line_text(prefix, a10, a60, a300, tot)) == (a10, a60, a300, tot),
{
    reveal_strlit("avg10=");
    reveal_strlit("avg60=");
    reveal_strlit("avg300=");
    reveal_strlit("total=");
    reveal_with_fuel(crate::text::join_sp, 6);
    let l = psi_line_text(prefix, a10, a60, a300, tot);
    lemma_psi_line_tokens(prefix, a10, a60, a300, tot);
    assert(l =~= prefix + seq![' '] + ("avg10="@ + centi_str(a10)) + seq![' '] + ("avg60="@
        + centi_str(a60)) + seq![' '] + ("avg300="@ + centi_str(a300)) + seq![' '] + ("total="@
        + dec_str(tot)));
    assert(l.subrange(0, prefix.len() as int) =~= prefix);
    assert(is_prefix(prefix, l));
    lemma_kv_centi("avg10="@, a10);
    lemma_kv_centi("avg60="@, a60);
    lemma_kv_centi("avg300="@, a300);
    lemma_kv_int("total="@, tot);
}

} // verus!
