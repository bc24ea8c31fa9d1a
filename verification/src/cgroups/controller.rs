//! Controller file contents: what is written to and read from the
//! `cpu.*` and `memory.*` files of a group.
//!
//! The encoders return the file name and the exact bytes to write; the
//! host performs the write. The parsers take the file text.

use vstd::prelude::*;
use vstd::string::StrSliceExecFns;
use vstd::string::StringExecFns;

use crate::errors::CgroupError;
use crate::num::{
    centi_ok, centi_val, dec_str, dec_val, parse_centi, parse_u64, u64_to_string,
};
use crate::text::{
    all_digits, split_ws, split_ws_spec, str_eq, tok_end, trim_spec, trim_str, views_of,
    contains_seq, occurs_at, find_sub, split_lines, split_lines_spec, is_prefix, starts_with_str,
};
use super::utils::{
    convert_percent_to_quota, convert_quota_to_percent, cpu_stat_of, memory_stat_of,
    parse_cpu_stat, parse_memory_stat, stat_lines_ok, throttle_centi, throttle_centi_exec,
    PERIOD_US,
};

verus! {

/// One file write inside a group directory: the file's name and its
/// full new contents.
#[derive(Debug, Clone, PartialEq, Eq)]
pub struct FileWrite {
    pub file: String,
    pub contents: String,
}

/// The `cpu.max` text for a whole-percent ceiling.
pub open spec fn cpu_max_text(percent: u64) -> Seq<char> {
    dec_str((percent * 1000) as nat) + seq![' '] + dec_str(100000)
}

/// CPU controller file encodings and readings.
pub struct CpuController;

impl CpuController {
    /// The `cpu.max` write for a whole-percent ceiling.
    pub fn set_quota(percent: u64) -> (w: FileWrite)
        requires
            percent <= 1000,
        ensures
            w.file@ == "cpu.max"@,
            w.contents@ == cpu_max_text(percent),
    {
        let q = convert_percent_to_quota(percent);
        let mut contents = u64_to_string(q.0);
        contents.append(" ");
        let p = u64_to_string(q.1);
        contents.append(p.as_str());
        proof {
            reveal_strlit(" ");
            assert(contents@ =~= cpu_max_text(percent));
        }
        FileWrite { file: "cpu.max".to_owned(), contents }
    }

    /// The `cpu.max` write that lifts the ceiling.
    pub fn remove_quota() -> (w: FileWrite)
        ensures
            w.file@ == "cpu.max"@,
            w.contents@ == "max 100000"@,
    {
        FileWrite { file: "cpu.max".to_owned(), contents: "max 100000".to_owned() }
    }

    /// The `cpu.weight` write; the weight must lie in `[1, 10000]`.
    pub fn set_weight(weight: u32) -> (r: Result<FileWrite, CgroupError>)
        ensures
            r is Ok <==> 1 <= weight <= 10000,
            r matches Ok(w) ==> w.file@ == "cpu.weight"@ && w.contents@ == dec_str(weight as nat),
            r matches Err(e) ==> e is InvalidLimit,
    {
        if weight < 1 || weight > 10000 {
            return Err(CgroupError::InvalidLimit("CPU weight must be 1-10000".to_owned()));
        }
        let contents = u64_to_string(weight as u64);
        Ok(FileWrite { file: "cpu.weight".to_owned(), contents })
    }

    /// Read a `cpu.max` text back as a whole-percent ceiling; `max` or
    /// an unexpected shape reads as no ceiling, and a field that is not
    /// a workable number is an error.
    pub fn get_quota(content: &str) -> (r: Result<Option<u64>, CgroupError>)
        ensures
            ({
                let toks = split_ws_spec(trim_spec(content@));
                if toks.len() != 2 {
                    r == Ok::<Option<u64>, CgroupError>(None)
                } else if toks[0] == "max"@ {
                    r == Ok::<Option<u64>, CgroupError>(None)
                } else if !(toks[0].len() >= 1 && all_digits(toks[0]) && dec_val(toks[0])
                    <= u64::MAX / 100) {
                    r matches Err(e) && e is ParseError
                } else if !(toks[1].len() >= 1 && all_digits(toks[1]) && dec_val(toks[1])
                    <= u64::MAX) {
                    r matches Err(e) && e is ParseError
                } else if dec_val(toks[1]) == 0 {
                    r == Ok::<Option<u64>, CgroupError>(Some(0))
                } else {
                    r == Ok::<Option<u64>, CgroupError>(
                        Some((((dec_val(toks[0]) as int) * 100) / (dec_val(toks[1]) as int)) as u64),
                    )
                }
            }),
    {
        let trimmed = trim_str(content);
        let parts = split_ws(trimmed.as_str());
        if parts.len() != 2 {
            return Ok(None);
        }
        proof {
            assert(parts@[0]@ == split_ws_spec(trim_spec(content@))[0]);
            assert(parts@[1]@ == split_ws_spec(trim_spec(content@))[1]);
        }
        if str_eq(parts[0].as_str(), "max") {
            return Ok(None);
        }
        let quota = match parse_u64(parts[0].as_str()) {
            Some(v) => v,
            None => {
                return Err(CgroupError::ParseError("Invalid quota".to_owned()));
            },
        };
        if quota > u64::MAX / 100 {
            return Err(CgroupError::ParseError("Invalid quota".to_owned()));
        }
        let period = match parse_u64(parts[1].as_str()) {
            Some(v) => v,
            None => {
                return Err(CgroupError::ParseError("Invalid period".to_owned()));
            },
        };
        Ok(Some(convert_quota_to_percent(quota, period)))
    }

    /// Parse a `cpu.stat` text into figures.
    pub fn get_stats(content: &str) -> (r: Result<CpuStats, CgroupError>)
        ensures
            r is Ok <==> stat_lines_ok(split_lines_spec(content@)),
            r matches Ok(v) ==> ({
                let s = cpu_stat_of(split_lines_spec(content@));
                v == (CpuStats {
                    usage_usec: s.usage_usec,
                    user_usec: s.user_usec,
                    system_usec: s.system_usec,
                    nr_periods: s.nr_periods,
                    nr_throttled: s.nr_throttled,
                    throttled_usec: s.throttled_usec,
                })
            }),
            r matches Err(e) ==> e is ParseError,
    {
        let values = match parse_cpu_stat(content) {
            Ok(v) => v,
            Err(e) => {
                return Err(e);
            },
        };
        Ok(
            CpuStats {
                usage_usec: values.usage_usec,
                user_usec: values.user_usec,
                system_usec: values.system_usec,
                nr_periods: values.nr_periods,
                nr_throttled: values.nr_throttled,
                throttled_usec: values.throttled_usec,
            },
        )
    }
}

/// CPU accounting figures of one group.
#[derive(Debug, Clone, Copy, PartialEq, Eq, Structural, Default)]
pub struct CpuStats {
    pub usage_usec: u64,
    pub user_usec: u64,
    pub system_usec: u64,
    pub nr_periods: u64,
    pub nr_throttled: u64,
    pub throttled_usec: u64,
}

impl CpuStats {
    /// Share of throttled periods, in hundredths of a percent.
    pub fn throttle_percentage(&self) -> (r: u64)
        ensures
            r == throttle_centi(self.nr_throttled, self.nr_periods),
    {
        throttle_centi_exec(self.nr_throttled, self.nr_periods)
    }

    /// Was the group throttled at all?
    pub fn is_throttled(&self) -> (r: bool)
        ensures
            r == (self.nr_throttled > 0),
    {
        self.nr_throttled > 0
    }
}

/// Memory controller file encodings and readings.
pub struct MemoryController;

impl MemoryController {
    /// The `memory.max` write for a hard ceiling in bytes.
    pub fn set_max(bytes: u64) -> (w: FileWrite)
        ensures
            w.file@ == "memory.max"@,
            w.contents@ == dec_str(bytes as nat),
    {
        FileWrite { file: "memory.max".to_owned(), contents: u64_to_string(bytes) }
    }

    /// Read a `memory.max` text back; `max` reads as no ceiling.
    pub fn get_max(content: &str) -> (r: Result<Option<u64>, CgroupError>)
        ensures
            ({
                let t = trim_spec(content@);
                if t == "max"@ {
                    r == Ok::<Option<u64>, CgroupError>(None)
                } else if t.len() >= 1 && all_digits(t) && dec_val(t) <= u64::MAX {
                    r == Ok::<Option<u64>, CgroupError>(Some(dec_val(t) as u64))
                } else {
                    r matches Err(e) && e is ParseError
                }
            }),
    {
        let trimmed = trim_str(content);
        if str_eq(trimmed.as_str(), "max") {
            return Ok(None);
        }
        match parse_u64(trimmed.as_str()) {
            Some(v) => Ok(Some(v)),
            None => Err(CgroupError::ParseError("Invalid memory.max".to_owned())),
        }
    }

    /// The `memory.max` write that lifts the ceiling.
    pub fn remove_max() -> (w: FileWrite)
        ensures
            w.file@ == "memory.max"@,
            w.contents@ == "max"@,
    {
        FileWrite { file: "memory.max".to_owned(), contents: "max".to_owned() }
    }

    /// The `memory.high` write for a soft ceiling in bytes.
    pub fn set_high(bytes: u64) -> (w: FileWrite)
        ensures
            w.file@ == "memory.high"@,
            w.contents@ == dec_str(bytes as nat),
    {
        FileWrite { file: "memory.high".to_owned(), contents: u64_to_string(bytes) }
    }

    /// Read a `memory.current` text: a plain byte count.
    pub fn get_current(content: &str) -> (r: Result<u64, CgroupError>)
        ensures
            ({
                let t = trim_spec(content@);
                if t.len() >= 1 && all_digits(t) && dec_val(t) <= u64::MAX {
                    r == Ok::<u64, CgroupError>(dec_val(t) as u64)
                } else {
                    r matches Err(e) && e is ParseError
                }
            }),
    {
        let trimmed = trim_str(content);
        match parse_u64(trimmed.as_str()) {
            Some(v) => Ok(v),
            None => Err(CgroupError::ParseError("Invalid memory.current".to_owned())),
        }
    }

    /// Read a `memory.peak` text: a plain byte count.
    pub fn get_peak(content: &str) -> (r: Result<u64, CgroupError>)
        ensures
            ({
                let t = trim_spec(content@);
                if t.len() >= 1 && all_digits(t) && dec_val(t) <= u64::MAX {
                    r == Ok::<u64, CgroupError>(dec_val(t) as u64)
                } else {
                    r matches Err(e) && e is ParseError
                }
            }),
    {
        let trimmed = trim_str(content);
        match parse_u64(trimmed.as_str()) {
            Some(v) => Ok(v),
            None => Err(CgroupError::ParseError("Invalid memory.peak".to_owned())),
        }
    }

    /// Combine the `memory.current`, `memory.stat` and optional
    /// `memory.peak` texts into one reading; an unreadable or missing
    /// peak falls back to the current figure.
    pub fn get_stats(current_content: &str, stat_content: &str, peak_content: Option<&str>) -> (r:
        Result<MemoryStats, CgroupError>)
        ensures
            ({
                let cur = trim_spec(current_content@);
                let cur_ok = cur.len() >= 1 && all_digits(cur) && dec_val(cur) <= u64::MAX;
                let stat_ok = stat_lines_ok(split_lines_spec(stat_content@));
                if !(cur_ok && stat_ok) {
                    r matches Err(e) && e is ParseError
                } else {
                    r matches Ok(v) && ({
                        let m = memory_stat_of(split_lines_spec(stat_content@));
                        let current = dec_val(cur) as u64;
                        let peak = match peak_content {
                            Some(pc) => {
                                let pt = trim_spec(pc@);
                                if pt.len() >= 1 && all_digits(pt) && dec_val(pt) <= u64::MAX {
                                    dec_val(pt) as u64
                                } else {
                                    current
                                }
                            },
                            None => current,
                        };
                        v == (MemoryStats {
                            current,
                            peak,
                            anon: m.anon,
                            file: m.file,
                            kernel_stack: m.kernel_stack,
                            slab: m.slab,
                        })
                    })
                }
            }),
    {
        let current = match Self::get_current(current_content) {
            Ok(v) => v,
            Err(e) => {
                return Err(e);
            },
        };
        let values = match parse_memory_stat(stat_content) {
            Ok(v) => v,
            Err(e) => {
                return Err(e);
            },
        };
        let peak = match peak_content {
            Some(pc) => match Self::get_peak(pc) {
                Ok(v) => v,
                Err(_) => current,
            },
            None => current,
        };
        Ok(
            MemoryStats {
                current,
                peak,
                anon: values.anon,
                file: values.file,
                kernel_stack: values.kernel_stack,
                slab: values.slab,
            },
        )
    }

    /// Parse a per-group `memory.pressure` text, line by line as the
    /// fold says.
    pub fn get_pressure(content: &str) -> (r: Result<MemoryPressure, CgroupError>)
        ensures
            r is Ok <==> (pressure_fold(split_lines_spec(content@), zero_pressure()) is Some),
            r matches Ok(v) ==> pressure_fold(split_lines_spec(content@), zero_pressure())
                == Some(v),
            r matches Err(e) ==> e is ParseError,
    {
        parse_memory_pressure(content)
    }
}

/// Memory figures of one group, in bytes.
#[derive(Debug, Clone, Copy, PartialEq, Eq, Structural, Default)]
pub struct MemoryStats {
    pub current: u64,
    pub peak: u64,
    pub anon: u64,
    pub file: u64,
    pub kernel_stack: u64,
    pub slab: u64,
}

impl MemoryStats {
    /// Current use in whole mebibytes.
    pub fn current_mb(&self) -> (r: u64)
        ensures
            r == self.current / 1024 / 1024,
    {
        self.current / 1024 / 1024
    }

    /// Peak use in whole mebibytes.
    pub fn peak_mb(&self) -> (r: u64)
        ensures
            r == self.peak / 1024 / 1024,
    {
        self.peak / 1024 / 1024
    }
}

/// Per-group stall averages, in hundredths of a percent.
#[derive(Debug, Clone, Copy, PartialEq, Eq, Structural, Default)]
pub struct MemoryPressure {
    pub some_avg10: u64,
    pub some_avg60: u64,
    pub some_avg300: u64,
    pub full_avg10: u64,
    pub full_avg60: u64,
    pub full_avg300: u64,
}

impl MemoryPressure {
    /// Some tasks stalled beyond the threshold (strict)?
    pub fn is_under_pressure(&self, threshold_centi: u64) -> (r: bool)
        ensures
            r == (self.some_avg10 > threshold_centi),
    {
        self.some_avg10 > threshold_centi
    }

    /// All tasks stalled beyond the threshold (strict)?
    pub fn is_critical(&self, threshold_centi: u64) -> (r: bool)
        ensures
            r == (self.full_avg10 > threshold_centi),
    {
        self.full_avg10 > threshold_centi
    }
}

/// The value behind `key=` in `line`: the run of text from just after
/// the first occurrence of the marker to the next whitespace, which
/// must exist.
pub open spec fn avg_value_ok(line: Seq<char>, marker: Seq<char>) -> bool {
    exists|at: int|
        {
            &&& #[trigger] occurs_at(line, marker, at)
            &&& (forall|j: int| 0 <= j < at ==> !occurs_at(line, marker, j))
            &&& tok_end(line, at + marker.len()) < line.len()
            &&& centi_ok(line.subrange(at + marker.len(), tok_end(line, at + marker.len())))
            &&& centi_val(line.subrange(at + marker.len(), tok_end(line, at + marker.len())))
                <= u64::MAX
        }
}

/// The parsed value behind `key=` in `line`.
pub open spec fn avg_value_of(line: Seq<char>, marker: Seq<char>) -> nat {
    let at = choose|at: int|
        occurs_at(line, marker, at) && (forall|j: int| 0 <= j < at ==> !occurs_at(line, marker, j));
    centi_val(line.subrange(at + marker.len(), tok_end(line, at + marker.len())))
}

/// Extract one `avgN` figure from a PSI line, in hundredths of a
/// percent. The value must be followed by whitespace on the line, as
/// the kernel always writes it.
pub fn extract_avg_value(line: &str, key: &str) -> (r: Result<u64, CgroupError>)
    ensures
        r is Ok <==> avg_value_ok(line@, key@ + "="@),
        r matches Ok(v) ==> v == avg_value_of(line@, key@ + "="@),
        r matches Err(e) ==> e is ParseError,
{
    let mut marker = String::new();
    marker.append(key);
    marker.append("=");
    let llen = line.unicode_len();
    let at = match find_sub(line, marker.as_str()) {
        Some(at) => at,
        None => {
            proof {
                assert(forall|j: int| !occurs_at(line@, marker@, j));
            }
            return Err(CgroupError::ParseError("missing average key".to_owned()));
        },
    };
    proof {
        lemma_first_occurrence_unique(line@, marker@, at as int);
        assert(at + marker@.len() <= line@.len());
    }
    let start = at + marker.as_str().unicode_len();
    let vend = crate::text::scan_tok_end(line, start);
    proof {
        crate::text::lemma_tok_end(line@, start as int);
    }
    if vend == line.unicode_len() {
        return Err(CgroupError::ParseError("average value runs to the end".to_owned()));
    }
    let value = line.substring_char(start, vend);
    proof {
        assert(value@ =~= line@.subrange(at + marker@.len(), tok_end(line@, at + marker@.len())));
    }
    match parse_centi(value) {
        Some(v) => Ok(v),
        None => Err(CgroupError::ParseError("average value is not a fraction".to_owned())),
    }
}

/// The first occurrence is the only position that the value spec can
/// denote.
proof fn lemma_first_occurrence_unique(line: Seq<char>, marker: Seq<char>, at: int)
    requires
        occurs_at(line, marker, at),
        forall|j: int| 0 <= j < at ==> !occurs_at(line, marker, j),
    ensures
        (choose|a: int|
            occurs_at(line, marker, a) && (forall|j: int|
                0 <= j < a ==> !occurs_at(line, marker, j))) == at,
{
    let a = choose|a: int|
        occurs_at(line, marker, a) && (forall|j: int| 0 <= j < a ==> !occurs_at(line, marker, j));
    assert(occurs_at(line, marker, at) && (forall|j: int|
        0 <= j < at ==> !occurs_at(line, marker, j)));
    assert(!(a < at) && !(at < a));
}

/// How one line changes a pressure reading under the fold: a `some` or
/// `full` line must carry its three readable averages and sets them;
/// any other line changes nothing.
pub open spec fn pressure_line_update(p: MemoryPressure, l: Seq<char>) -> Option<MemoryPressure> {
    if is_prefix("some "@, l) {
        if avg_value_ok(l, "avg10="@) && avg_value_ok(l, "avg60="@) && avg_value_ok(
            l,
            "avg300="@,
        ) {
            Some(
                MemoryPressure {
                    some_avg10: avg_value_of(l, "avg10="@) as u64,
                    some_avg60: avg_value_of(l, "avg60="@) as u64,
                    some_avg300: avg_value_of(l, "avg300="@) as u64,
                    ..p
                },
            )
        } else {
            None
        }
    } else if is_prefix("full "@, l) {
        if avg_value_ok(l, "avg10="@) && avg_value_ok(l, "avg60="@) && avg_value_ok(
            l,
            "avg300="@,
        ) {
            Some(
                MemoryPressure {
                    full_avg10: avg_value_of(l, "avg10="@) as u64,
                    full_avg60: avg_value_of(l, "avg60="@) as u64,
                    full_avg300: avg_value_of(l, "avg300="@) as u64,
                    ..p
                },
            )
        } else {
            None
        }
    } else {
        Some(p)
    }
}

/// The fold of the whole text, line by line; the first unreadable
/// average stops it.
pub open spec fn pressure_fold(lines: Seq<Seq<char>>, p: MemoryPressure) -> Option<MemoryPressure>
    decreases lines.len(),
{
    if lines.len() == 0 {
        Some(p)
    } else {
        match pressure_line_update(p, lines[0]) {
            Some(q) => pressure_fold(lines.drop_first(), q),
            None => None,
        }
    }
}

/// The all-zero reading the fold starts from.
pub open spec fn zero_pressure() -> MemoryPressure {
    MemoryPressure {
        some_avg10: 0,
        some_avg60: 0,
        some_avg300: 0,
        full_avg10: 0,
        full_avg60: 0,
        full_avg300: 0,
    }
}

/// Parse a per-group `memory.pressure` text: the `some` and `full`
/// lines each carry the three windowed averages.
pub fn parse_memory_pressure(content: &str) -> (r: Result<MemoryPressure, CgroupError>)
    ensures
        r is Ok <==> (pressure_fold(split_lines_spec(content@), zero_pressure()) is Some),
        r matches Ok(v) ==> pressure_fold(split_lines_spec(content@), zero_pressure()) == Some(v),
        r matches Err(e) ==> e is ParseError,
{
    let lines = split_lines(content);
    let mut pressure = MemoryPressure {
        some_avg10: 0,
        some_avg60: 0,
        some_avg300: 0,
        full_avg10: 0,
        full_avg60: 0,
        full_avg300: 0,
    };
    proof {
        assert(views_of(lines@).skip(0) =~= views_of(lines@));
    }
    let mut i: usize = 0;
    while i < lines.len()
        invariant
            views_of(lines@) == split_lines_spec(content@),
            i <= lines@.len(),
            pressure_fold(views_of(lines@), zero_pressure()) == pressure_fold(
                views_of(lines@).skip(i as int),
                pressure,
            ),
        decreases lines@.len() - i,
    {
        proof {
            let vs = views_of(lines@);
            assert(vs.skip(i as int)[0] == vs[i as int]);
            assert(vs[i as int] == lines@[i as int]@);
            assert(vs.skip(i as int).drop_first() =~= vs.skip(i + 1));
        }
        let line = lines[i].as_str();
        proof {
            reveal_strlit("avg10");
            reveal_strlit("avg60");
            reveal_strlit("avg300");
            reveal_strlit("avg10=");
            reveal_strlit("avg60=");
            reveal_strlit("avg300=");
            reveal_strlit("=");
            assert("avg10"@ + "="@ =~= "avg10="@);
            assert("avg60"@ + "="@ =~= "avg60="@);
            assert("avg300"@ + "="@ =~= "avg300="@);
        }
        if starts_with_str(line, "some ") {
            pressure.some_avg10 = match extract_avg_value(line, "avg10") {
                Ok(v) => v,
                Err(e) => {
                    return Err(e);
                },
            };
            pressure.some_avg60 = match extract_avg_value(line, "avg60") {
                Ok(v) => v,
                Err(e) => {
                    return Err(e);
                },
            };
            pressure.some_avg300 = match extract_avg_value(line, "avg300") {
                Ok(v) => v,
                Err(e) => {
                    return Err(e);
                },
            };
        } else if starts_with_str(line, "full ") {
            pressure.full_avg10 = match extract_avg_value(line, "avg10") {
                Ok(v) => v,
                Err(e) => {
                    return Err(e);
                },
            };
            pressure.full_avg60 = match extract_avg_value(line, "avg60") {
                Ok(v) => v,
                Err(e) => {
                    return Err(e);
                },
            };
            pressure.full_avg300 = match extract_avg_value(line, "avg300") {
                Ok(v) => v,
                Err(e) => {
                    return Err(e);
                },
            };
        }
        i = i + 1;
    }
    proof {
        assert(views_of(lines@).skip(lines@.len() as int).len() == 0);
    }
    Ok(pressure)
}

} // verus!
