//! Parsers over process-listing text: which lines of a `ps aux` listing
//! belong to each watched class, and the readings of the per-process
//! sampler. The host runs the tools; the library reads their output.

use vstd::prelude::*;
use vstd::string::StrSliceExecFns;
use vstd::string::StringExecFns;

use crate::num::{centi_ok, centi_val, dec_val, parse_centi, parse_u64};
use crate::text::{
    all_digits, contains_seq, contains_str, ends_with_str, find_char_spec, is_suffix, push_char,
    split_lines, split_lines_spec, split_ws, split_ws_spec, str_eq, trim_spec, trim_str,
    views_of,
};

verus! {

/// The process id carried by a listing line: its second
/// whitespace-separated field, when that is a plain number.
pub open spec fn line_pid(l: Seq<char>) -> Option<u32> {
    let toks = split_ws_spec(l);
    if toks.len() >= 2 && toks[1].len() >= 1 && all_digits(toks[1]) && dec_val(toks[1])
        <= u32::MAX {
        Some(dec_val(toks[1]) as u32)
    } else {
        None
    }
}

/// The supervised antivirus line: it names the binary and is neither a
/// search artefact nor one of the supervisor's helpers.
pub open spec fn kesl_line(l: Seq<char>) -> bool {
    &&& contains_seq(l, "/opt/kaspersky/kesl/libexec/kesl"@)
    &&& !contains_seq(l, "grep"@)
    &&& !contains_seq(l, "wdserver"@)
    &&& !contains_seq(l, "kesl-starter"@)
}

/// The first listing line that is the supervised binary with a
/// readable id.
pub open spec fn first_kesl_pid(lines: Seq<Seq<char>>) -> Option<u32>
    decreases lines.len(),
{
    if lines.len() == 0 {
        None
    } else if kesl_line(lines[0]) && line_pid(lines[0]) is Some {
        line_pid(lines[0])
    } else {
        first_kesl_pid(lines.drop_first())
    }
}

/// A Node.js line: its command field is `node` or ends in `/node`.
pub open spec fn node_line(l: Seq<char>) -> bool {
    let toks = split_ws_spec(l);
    toks.len() > 10 && (toks[10] == "node"@ || is_suffix("/node"@, toks[10]))
}

/// A snap line: it mentions snap outside a search artefact and its
/// command field names snap.
pub open spec fn snap_line(l: Seq<char>) -> bool {
    let toks = split_ws_spec(l);
    &&& contains_seq(l, "snap"@)
    &&& !contains_seq(l, "grep"@)
    &&& toks.len() > 10
    &&& (contains_seq(toks[10], "snap"@) || contains_seq(toks[10], "/snap/"@))
}

/// A line whose command field names the given word, outside a search
/// artefact.
pub open spec fn command_line_matches(l: Seq<char>, word: Seq<char>) -> bool {
    let toks = split_ws_spec(l);
    toks.len() > 10 && contains_seq(toks[10], word) && !contains_seq(l, "grep"@)
}

/// The ids of the lines satisfying `node_line`, in listing order.
pub open spec fn node_pids_of(lines: Seq<Seq<char>>) -> Seq<u32>
    decreases lines.len(),
{
    if lines.len() == 0 {
        Seq::empty()
    } else {
        let head = node_pids_of(lines.drop_last());
        if node_line(lines.last()) && line_pid(lines.last()) is Some {
            head.push(line_pid(lines.last())->0)
        } else {
            head
        }
    }
}

/// The ids of the lines satisfying `snap_line`, in listing order.
pub open spec fn snap_pids_of(lines: Seq<Seq<char>>) -> Seq<u32>
    decreases lines.len(),
{
    if lines.len() == 0 {
        Seq::empty()
    } else {
        let head = snap_pids_of(lines.drop_last());
        if snap_line(lines.last()) && line_pid(lines.last()) is Some {
            head.push(line_pid(lines.last())->0)
        } else {
            head
        }
    }
}

/// The ids of the lines whose command field names the word, in listing
/// order.
pub open spec fn word_pids_of(lines: Seq<Seq<char>>, word: Seq<char>) -> Seq<u32>
    decreases lines.len(),
{
    if lines.len() == 0 {
        Seq::empty()
    } else {
        let head = word_pids_of(lines.drop_last(), word);
        if command_line_matches(lines.last(), word) && line_pid(lines.last()) is Some {
            head.push(line_pid(lines.last())->0)
        } else {
            head
        }
    }
}

/// Reads process listings; it holds no state.
pub struct ProcessScanner;

impl ProcessScanner {
    /// A fresh scanner.
    pub fn new() -> Self {
        ProcessScanner
    }

    /// The id of the supervised binary in a `ps aux` listing, if any.
    pub fn find_kesl_pid(&self, ps_output: &str) -> (r: Option<u32>)
        ensures
            r == first_kesl_pid(split_lines_spec(ps_output@)),
    {
        let lines = split_lines(ps_output);
        proof {
            assert(views_of(lines@).skip(0) =~= views_of(lines@));
        }
        let mut i: usize = 0;
        while i < lines.len()
            invariant
                views_of(lines@) == split_lines_spec(ps_output@),
                i <= lines@.len(),
                first_kesl_pid(views_of(lines@)) == first_kesl_pid(
                    views_of(lines@).skip(i as int),
                ),
            decreases lines@.len() - i,
        {
            proof {
                let vs = views_of(lines@);
                assert(vs.skip(i as int)[0] == vs[i as int]);
                assert(vs[i as int] == lines@[i as int]@);
                assert(vs.skip(i as int).drop_first() =~= vs.skip(i + 1));
            }
            let l = lines[i].as_str();
            if contains_str(l, "/opt/kaspersky/kesl/libexec/kesl") && !contains_str(l, "grep")
                && !contains_str(l, "wdserver") && !contains_str(l, "kesl-starter") {
                if let Some(pid) = parse_line_pid(l) {
                    return Some(pid);
                }
            }
            i = i + 1;
        }
        proof {
            assert(views_of(lines@).skip(lines@.len() as int).len() == 0);
        }
        None
    }

    /// The ids of every Node.js line of a `ps aux` listing.
    pub fn find_node_pids(&self, ps_output: &str) -> (r: Vec<u32>)
        ensures
            r@ == node_pids_of(split_lines_spec(ps_output@)),
    {
        let lines = split_lines(ps_output);
        let mut out: Vec<u32> = Vec::new();
        let mut i: usize = 0;
        while i < lines.len()
            invariant
                views_of(lines@) == split_lines_spec(ps_output@),
                i <= lines@.len(),
                out@ == node_pids_of(views_of(lines@).subrange(0, i as int)),
            decreases lines@.len() - i,
        {
            proof {
                let vs = views_of(lines@);
                let t = vs.subrange(0, i + 1);
                assert(t.drop_last() =~= vs.subrange(0, i as int));
                assert(t.last() == vs[i as int]);
                assert(vs[i as int] == lines@[i as int]@);
            }
            let l = lines[i].as_str();
            let toks = split_ws(l);
            if toks.len() > 10 {
                proof {
                    assert(toks@[10]@ == split_ws_spec(lines@[i as int]@)[10]);
                }
                if str_eq(toks[10].as_str(), "node") || ends_with_str(toks[10].as_str(), "/node") {
                    if let Some(pid) = parse_line_pid(l) {
                        out.push(pid);
                    }
                }
            }
            i = i + 1;
        }
        proof {
            assert(views_of(lines@).subrange(0, lines@.len() as int) =~= views_of(lines@));
        }
        out
    }

    /// The ids of every snap line of a `ps aux` listing.
    pub fn find_snap_pids(&self, ps_output: &str) -> (r: Vec<u32>)
        ensures
            r@ == snap_pids_of(split_lines_spec(ps_output@)),
    {
        let lines = split_lines(ps_output);
        let mut out: Vec<u32> = Vec::new();
        let mut i: usize = 0;
        while i < lines.len()
            invariant
                views_of(lines@) == split_lines_spec(ps_output@),
                i <= lines@.len(),
                out@ == snap_pids_of(views_of(lines@).subrange(0, i as int)),
            decreases lines@.len() - i,
        {
            proof {
                let vs = views_of(lines@);
                let t = vs.subrange(0, i + 1);
                assert(t.drop_last() =~= vs.subrange(0, i as int));
                assert(t.last() == vs[i as int]);
                assert(vs[i as int] == lines@[i as int]@);
            }
            let l = lines[i].as_str();
            if contains_str(l, "snap") && !contains_str(l, "grep") {
                let toks = split_ws(l);
                if toks.len() > 10 {
                    proof {
                        assert(toks@[10]@ == split_ws_spec(lines@[i as int]@)[10]);
                    }
                    if contains_str(toks[10].as_str(), "snap") || contains_str(
                        toks[10].as_str(),
                        "/snap/",
                    ) {
                        if let Some(pid) = parse_line_pid(l) {
                            out.push(pid);
                        }
                    }
                }
            }
            i = i + 1;
        }
        proof {
            assert(views_of(lines@).subrange(0, lines@.len() as int) =~= views_of(lines@));
        }
        out
    }

    /// The ids of every line whose command names Firefox.
    pub fn find_firefox_pids(&self, ps_output: &str) -> (r: Vec<u32>)
        ensures
            r@ == word_pids_of(split_lines_spec(ps_output@), "firefox"@),
    {
        find_word_pids(ps_output, "firefox")
    }

    /// The ids of every line whose command names Brave.
    pub fn find_brave_pids(&self, ps_output: &str) -> (r: Vec<u32>)
        ensures
            r@ == word_pids_of(split_lines_spec(ps_output@), "brave"@),
    {
        find_word_pids(ps_output, "brave")
    }

    /// The ids of every line whose command names Telegram.
    pub fn find_telegram_pids(&self, ps_output: &str) -> (r: Vec<u32>)
        ensures
            r@ == word_pids_of(split_lines_spec(ps_output@), "telegram"@),
    {
        find_word_pids(ps_output, "telegram")
    }

    /// The ids of every line whose command names the editor.
    pub fn find_nvim_pids(&self, ps_output: &str) -> (r: Vec<u32>)
        ensures
            r@ == word_pids_of(split_lines_spec(ps_output@), "nvim"@),
    {
        find_word_pids(ps_output, "nvim")
    }

    /// One sampler reading: the ninth field of the last line, with a
    /// decimal comma tolerated, in hundredths of a percent; zero when
    /// the line does not carry one.
    pub fn measure_cpu_top(&self, top_output: &str) -> (r: u64)
        ensures
            r == top_cpu_of(top_output@),
    {
        let lines = split_lines(top_output);
        if lines.len() == 0 {
            return 0;
        }
        proof {
            assert(views_of(lines@).last() == lines@[lines@.len() - 1]@);
        }
        let last = lines[lines.len() - 1].as_str();
        let toks = split_ws(last);
        if toks.len() <= 8 {
            return 0;
        }
        proof {
            assert(toks@[8]@ == split_ws_spec(lines@[lines@.len() - 1]@)[8]);
        }
        let fixed = comma_to_dot(toks[8].as_str());
        match parse_centi(fixed.as_str()) {
            Some(v) => v,
            None => 0,
        }
    }

    /// The mean of the nonzero samples, zero when all are zero.
    pub fn measure_cpu_average(&self, samples: &Vec<u64>) -> (r: u64)
        ensures
            r == avg_nonzero(samples@),
    {
        let mut sum: u128 = 0;
        let mut count: u64 = 0;
        let mut i: usize = 0;
        while i < samples.len()
            invariant
                i <= samples@.len(),
                sum == sum_nonzero(samples@.subrange(0, i as int)),
                count == count_nonzero(samples@.subrange(0, i as int)),
                sum <= count * (u64::MAX as int),
                count <= i,
            decreases samples@.len() - i,
        {
            proof {
                let t = samples@.subrange(0, i + 1);
                assert(t.drop_last() =~= samples@.subrange(0, i as int));
                assert(t.last() == samples@[i as int]);
            }
            if samples[i] > 0 {
                sum = sum + samples[i] as u128;
                count = count + 1;
            }
            i = i + 1;
        }
        proof {
            assert(samples@.subrange(0, samples@.len() as int) =~= samples@);
        }
        if count == 0 {
            0
        } else {
            let avg = sum / (count as u128);
            proof {
                assert(sum <= count * (u64::MAX as int));
                assert((sum as int) / (count as int) <= u64::MAX) by (nonlinear_arith)
                    requires
                        sum <= count * (u64::MAX as int),
                        count > 0,
                ;
            }
            avg as u64
        }
    }

    /// The resident kilobytes a `ps -o rss=` call printed; zero when
    /// the text is not a plain number.
    pub fn get_memory_kb(&self, rss_output: &str) -> (r: u64)
        ensures
            ({
                let t = trim_spec(rss_output@);
                r == if t.len() >= 1 && all_digits(t) && dec_val(t) <= u64::MAX {
                    dec_val(t) as u64
                } else {
                    0u64
                }
            }),
    {
        let trimmed = trim_str(rss_output);
        match parse_u64(trimmed.as_str()) {
            Some(v) => v,
            None => 0,
        }
    }

    /// The name and full command of a `ps -o comm=,cmd=` line: the text
    /// before the first blank, and everything after it — or the name
    /// again when there is nothing after.
    pub fn get_process_info(&self, ps_output: &str) -> (r: (String, String))
        ensures
            ({
                let t = trim_spec(ps_output@);
                match find_char_spec(t, ' ') {
                    Some(i) => r.0@ == t.subrange(0, i) && r.1@ == t.skip(i + 1),
                    None => r.0@ == t && r.1@ == t,
                }
            }),
    {
        let trimmed = trim_str(ps_output);
        let t = trimmed.as_str();
        let tlen = t.unicode_len();
        match crate::text::find_char(t, ' ') {
            Some(i) => {
                proof {
                    crate::text::lemma_find_char(t@, ' ');
                }
                let name = t.substring_char(0, i);
                let command = t.substring_char(i + 1, tlen);
                proof {
                    assert(name@ =~= t@.subrange(0, i as int));
                    assert(command@ =~= t@.skip(i + 1));
                }
                (name.to_owned(), command.to_owned())
            },
            None => {
                let mut copy1 = String::new();
                copy1.append(t);
                let mut copy2 = String::new();
                copy2.append(t);
                (copy1, copy2)
            },
        }
    }
}

/// The sampler figure of the last listing line.
pub open spec fn top_cpu_of(content: Seq<char>) -> u64 {
    let ls = split_lines_spec(content);
    if ls.len() == 0 {
        0u64
    } else {
        let toks = split_ws_spec(ls.last());
        if toks.len() > 8 {
            let fixed = comma_fix(toks[8]);
            if centi_ok(fixed) && centi_val(fixed) <= u64::MAX {
                centi_val(fixed) as u64
            } else {
                0u64
            }
        } else {
            0u64
        }
    }
}

/// Decimal commas turned into dots.
pub open spec fn comma_fix(s: Seq<char>) -> Seq<char> {
    s.map_values(|c: char| if c == ',' { '.' } else { c })
}

/// Replace every comma with a dot.
fn comma_to_dot(s: &str) -> (r: String)
    ensures
        r@ == comma_fix(s@),
{
    let len = s.unicode_len();
    let mut out = String::new();
    let mut i: usize = 0;
    while i < len
        invariant
            len == s@.len(),
            i <= len,
            out@ == comma_fix(s@.subrange(0, i as int)),
        decreases len - i,
    {
        let c = s.get_char(i);
        let fixed = if c == ',' {
            '.'
        } else {
            c
        };
        push_char(&mut out, fixed);
        proof {
            assert(out@ =~= comma_fix(s@.subrange(0, i + 1)));
        }
        i = i + 1;
    }
    proof {
        assert(s@.subrange(0, len as int) =~= s@);
    }
    out
}

/// Sum of the nonzero entries.
pub open spec fn sum_nonzero(s: Seq<u64>) -> int
    decreases s.len(),
{
    if s.len() == 0 {
        0
    } else {
        sum_nonzero(s.drop_last()) + if s.last() > 0 {
            s.last() as int
        } else {
            0int
        }
    }
}

/// Count of the nonzero entries.
pub open spec fn count_nonzero(s: Seq<u64>) -> int
    decreases s.len(),
{
    if s.len() == 0 {
        0
    } else {
        count_nonzero(s.drop_last()) + if s.last() > 0 {
            1int
        } else {
            0int
        }
    }
}

/// The truncated mean of the nonzero entries; zero when none.
pub open spec fn avg_nonzero(s: Seq<u64>) -> u64 {
    if count_nonzero(s) == 0 {
        0u64
    } else {
        (sum_nonzero(s) / (count_nonzero(s) as int)) as u64
    }
}

/// The id field of one listing line.
fn parse_line_pid(l: &str) -> (r: Option<u32>)
    ensures
        r == line_pid(l@),
{
    let toks = split_ws(l);
    if toks.len() < 2 {
        return None;
    }
    proof {
        assert(toks@[1]@ == split_ws_spec(l@)[1]);
    }
    match parse_u64(toks[1].as_str()) {
        Some(v) => {
            if v <= u32::MAX as u64 {
                Some(v as u32)
            } else {
                None
            }
        },
        None => None,
    }
}

/// Collect the ids of the lines whose command field names the word.
fn find_word_pids(ps_output: &str, word: &str) -> (r: Vec<u32>)
    ensures
        r@ == word_pids_of(split_lines_spec(ps_output@), word@),
{
    let lines = split_lines(ps_output);
    let mut out: Vec<u32> = Vec::new();
    let mut i: usize = 0;
    while i < lines.len()
        invariant
            views_of(lines@) == split_lines_spec(ps_output@),
            i <= lines@.len(),
            out@ == word_pids_of(views_of(lines@).subrange(0, i as int), word@),
        decreases lines@.len() - i,
    {
        proof {
            let vs = views_of(lines@);
            let t = vs.subrange(0, i + 1);
            assert(t.drop_last() =~= vs.subrange(0, i as int));
            assert(t.last() == vs[i as int]);
            assert(vs[i as int] == lines@[i as int]@);
        }
        let l = lines[i].as_str();
        let toks = split_ws(l);
        if toks.len() > 10 {
            proof {
                assert(toks@[10]@ == split_ws_spec(lines@[i as int]@)[10]);
            }
            if contains_str(toks[10].as_str(), word) && !contains_str(l, "grep") {
                if let Some(pid) = parse_line_pid(l) {
                    out.push(pid);
                }
            }
        }
        i = i + 1;
    }
    proof {
        assert(views_of(lines@).subrange(0, lines@.len() as int) =~= views_of(lines@));
    }
    out
}

} // verus!
