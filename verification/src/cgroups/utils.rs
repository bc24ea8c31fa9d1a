//! Pure helpers of the cgroup subsystem: quota arithmetic, the
//! key/value stat parsers, path validation and the process probe.

use vstd::prelude::*;

use crate::errors::CgroupError;
use crate::executor::ProcessExecutor;
use crate::num::{dec_val, parse_u64};
use crate::text::{
    all_digits, is_prefix, split_lines, split_lines_spec, split_ws, split_ws_spec, str_eq,
    views_of,
};
use vstd::string::StrSliceExecFns;

verus! {

/// The fixed enforcement period in microseconds.
pub const PERIOD_US: u64 = 100000;

/// Quota microseconds for a whole-percent CPU ceiling against the fixed
/// period: one percent is one thousand microseconds.
pub fn convert_percent_to_quota(percent: u64) -> (r: (u64, u64))
    requires
        percent <= u64::MAX / 1000,
    ensures
        r.0 == percent * 1000,
        r.1 == PERIOD_US,
{
    (percent * 1000, PERIOD_US)
}

/// Whole-percent CPU ceiling of a quota and period; zero when the
/// period is zero.
pub fn convert_quota_to_percent(quota: u64, period: u64) -> (r: u64)
    requires
        quota <= u64::MAX / 100,
    ensures
        r == if period == 0 {
            0u64
        } else {
            ((quota as int) * 100 / (period as int)) as u64
        },
{
    if period == 0 {
        0
    } else {
        quota * 100 / period
    }
}

/// The round trip through quota microseconds is exact for every
/// percentage the limits allow.
pub proof fn lemma_quota_round_trip(p: u64)
    requires
        p <= 1000,
    ensures
        (p * 1000) * 100 / (PERIOD_US as int) == p,
{
    assert((p * 1000) * 100 == p * 100000) by (nonlinear_arith);
    assert(p * 100000 / 100000 == p) by (nonlinear_arith);
}

// ---------------------------------------------------------------------------
// key/value stat files
// ---------------------------------------------------------------------------

/// The key and value of one stat line: the first two whitespace-split
/// fields, the second a decimal that fits.
pub open spec fn stat_kv(l: Seq<char>) -> Option<(Seq<char>, nat)> {
    let toks = split_ws_spec(l);
    if toks.len() < 2 {
        None
    } else if toks[1].len() >= 1 && all_digits(toks[1]) && dec_val(toks[1]) <= u64::MAX {
        Some((toks[0], dec_val(toks[1])))
    } else {
        None
    }
}

/// Every line of the file parses as key and value.
pub open spec fn stat_lines_ok(lines: Seq<Seq<char>>) -> bool {
    forall|i: int| 0 <= i < lines.len() ==> stat_kv(#[trigger] lines[i]) is Some
}

/// The value of the last line bearing `key`, or zero.
pub open spec fn stat_value(lines: Seq<Seq<char>>, key: Seq<char>) -> nat
    decreases lines.len(),
{
    if lines.len() == 0 {
        0
    } else {
        match stat_kv(lines.last()) {
            Some(kv) => {
                if kv.0 == key {
                    kv.1
                } else {
                    stat_value(lines.drop_last(), key)
                }
            },
            None => stat_value(lines.drop_last(), key),
        }
    }
}

/// Parse one stat line into its key and value.
fn parse_stat_line(l: &str) -> (r: Result<(String, u64), CgroupError>)
    ensures
        r is Ok <==> stat_kv(l@) is Some,
        r matches Ok(kv) ==> (stat_kv(l@) matches Some(s) && kv.0@ == s.0 && kv.1 == s.1),
        r matches Err(e) ==> e is ParseError,
{
    let toks = split_ws(l);
    if toks.len() < 2 {
        return Err(CgroupError::ParseError("stat line holds no key and value".to_owned()));
    }
    proof {
        assert(toks@[0]@ == split_ws_spec(l@)[0]);
        assert(toks@[1]@ == split_ws_spec(l@)[1]);
    }
    match parse_u64(toks[1].as_str()) {
        Some(v) => {
            let mut key = String::new();
            key.append(toks[0].as_str());
            Ok((key, v))
        },
        None => Err(CgroupError::ParseError("stat value is not a number".to_owned())),
    }
}

/// The figures of a `cpu.stat` file.
#[derive(Debug, Clone, Copy, PartialEq, Eq, Structural, Default)]
pub struct CpuStatValues {
    pub usage_usec: u64,
    pub user_usec: u64,
    pub system_usec: u64,
    pub nr_periods: u64,
    pub nr_throttled: u64,
    pub throttled_usec: u64,
}

/// The reading a well-formed `cpu.stat` text denotes.
pub open spec fn cpu_stat_of(lines: Seq<Seq<char>>) -> CpuStatValues {
    CpuStatValues {
        usage_usec: stat_value(lines, "usage_usec"@) as u64,
        user_usec: stat_value(lines, "user_usec"@) as u64,
        system_usec: stat_value(lines, "system_usec"@) as u64,
        nr_periods: stat_value(lines, "nr_periods"@) as u64,
        nr_throttled: stat_value(lines, "nr_throttled"@) as u64,
        throttled_usec: stat_value(lines, "throttled_usec"@) as u64,
    }
}

impl CpuStatValues {
    /// Share of throttled periods, in hundredths of a percent, capped
    /// at the largest representable value.
    pub fn throttle_percentage(&self) -> (r: u64)
        ensures
            r == throttle_centi(self.nr_throttled, self.nr_periods),
    {
        throttle_centi_exec(self.nr_throttled, self.nr_periods)
    }
}

/// Throttled share in hundredths of a percent, capped.
pub open spec fn throttle_centi(nr_throttled: u64, nr_periods: u64) -> u64 {
    if nr_periods == 0 {
        0u64
    } else if (nr_throttled as int) * 10000 / (nr_periods as int) > u64::MAX {
        u64::MAX
    } else {
        ((nr_throttled as int) * 10000 / (nr_periods as int)) as u64
    }
}

/// Compute the throttled share without overflow.
pub fn throttle_centi_exec(nr_throttled: u64, nr_periods: u64) -> (r: u64)
    ensures
        r == throttle_centi(nr_throttled, nr_periods),
{
    if nr_periods == 0 {
        return 0;
    }
    let wide = (nr_throttled as u128) * 10000 / (nr_periods as u128);
    proof {
        assert((nr_throttled as u128) * 10000 == (nr_throttled as int) * 10000);
    }
    if wide > u64::MAX as u128 {
        u64::MAX
    } else {
        wide as u64
    }
}

/// Parse a `cpu.stat` text: key/value lines, known keys kept.
pub fn parse_cpu_stat(content: &str) -> (r: Result<CpuStatValues, CgroupError>)
    ensures
        r is Ok <==> stat_lines_ok(split_lines_spec(content@)),
        r matches Ok(v) ==> v == cpu_stat_of(split_lines_spec(content@)),
        r matches Err(e) ==> e is ParseError,
{
    let lines = split_lines(content);
    let mut values = CpuStatValues {
        usage_usec: 0,
        user_usec: 0,
        system_usec: 0,
        nr_periods: 0,
        nr_throttled: 0,
        throttled_usec: 0,
    };
    let mut i: usize = 0;
    while i < lines.len()
        invariant
            views_of(lines@) == split_lines_spec(content@),
            i <= lines@.len(),
            stat_lines_ok(views_of(lines@).subrange(0, i as int)),
            values == cpu_stat_of(views_of(lines@).subrange(0, i as int)),
        decreases lines@.len() - i,
    {
        proof {
            let vs = views_of(lines@);
            let t = vs.subrange(0, i + 1);
            assert(t.drop_last() =~= vs.subrange(0, i as int));
            assert(t.last() == vs[i as int]);
            assert(vs[i as int] == lines@[i as int]@);
        }
        let kv = match parse_stat_line(lines[i].as_str()) {
            Ok(kv) => kv,
            Err(e) => {
                return Err(e);
            },
        };
        let (key, value) = kv;
        if str_eq(key.as_str(), "usage_usec") {
            values.usage_usec = value;
        }
        if str_eq(key.as_str(), "user_usec") {
            values.user_usec = value;
        }
        if str_eq(key.as_str(), "system_usec") {
            values.system_usec = value;
        }
        if str_eq(key.as_str(), "nr_periods") {
            values.nr_periods = value;
        }
        if str_eq(key.as_str(), "nr_throttled") {
            values.nr_throttled = value;
        }
        if str_eq(key.as_str(), "throttled_usec") {
            values.throttled_usec = value;
        }
        proof {
            let vs = views_of(lines@);
            let t = vs.subrange(0, i + 1);
            assert(t.drop_last() =~= vs.subrange(0, i as int));
            assert(stat_kv(t.last()) is Some);
            assert(values == cpu_stat_of(t));
        }
        i = i + 1;
    }
    proof {
        assert(views_of(lines@).subrange(0, lines@.len() as int) =~= views_of(lines@));
    }
    Ok(values)
}

/// The figures of a `memory.stat` file.
#[derive(Debug, Clone, Copy, PartialEq, Eq, Structural, Default)]
pub struct MemoryStatValues {
    pub anon: u64,
    pub file: u64,
    pub kernel_stack: u64,
    pub slab: u64,
    pub sock: u64,
    pub shmem: u64,
    pub file_mapped: u64,
    pub file_dirty: u64,
    pub file_writeback: u64,
}

/// The reading a well-formed `memory.stat` text denotes.
pub open spec fn memory_stat_of(lines: Seq<Seq<char>>) -> MemoryStatValues {
    MemoryStatValues {
        anon: stat_value(lines, "anon"@) as u64,
        file: stat_value(lines, "file"@) as u64,
        kernel_stack: stat_value(lines, "kernel_stack"@) as u64,
        slab: stat_value(lines, "slab"@) as u64,
        sock: stat_value(lines, "sock"@) as u64,
        shmem: stat_value(lines, "shmem"@) as u64,
        file_mapped: stat_value(lines, "file_mapped"@) as u64,
        file_dirty: stat_value(lines, "file_dirty"@) as u64,
        file_writeback: stat_value(lines, "file_writeback"@) as u64,
    }
}

/// Parse a `memory.stat` text: key/value lines, known keys kept.
pub fn parse_memory_stat(content: &str) -> (r: Result<MemoryStatValues, CgroupError>)
    ensures
        r is Ok <==> stat_lines_ok(split_lines_spec(content@)),
        r matches Ok(v) ==> v == memory_stat_of(split_lines_spec(content@)),
        r matches Err(e) ==> e is ParseError,
{
    let lines = split_lines(content);
    let mut values = MemoryStatValues {
        anon: 0,
        file: 0,
        kernel_stack: 0,
        slab: 0,
        sock: 0,
        shmem: 0,
        file_mapped: 0,
        file_dirty: 0,
        file_writeback: 0,
    };
    let mut i: usize = 0;
    while i < lines.len()
        invariant
            views_of(lines@) == split_lines_spec(content@),
            i <= lines@.len(),
            stat_lines_ok(views_of(lines@).subrange(0, i as int)),
            values == memory_stat_of(views_of(lines@).subrange(0, i as int)),
        decreases lines@.len() - i,
    {
        proof {
            let vs = views_of(lines@);
            let t = vs.subrange(0, i + 1);
            assert(t.drop_last() =~= vs.subrange(0, i as int));
            assert(t.last() == vs[i as int]);
            assert(vs[i as int] == lines@[i as int]@);
        }
        let kv = match parse_stat_line(lines[i].as_str()) {
            Ok(kv) => kv,
            Err(e) => {
                return Err(e);
            },
        };
        let (key, value) = kv;
        if str_eq(key.as_str(), "anon") {
            values.anon = value;
        }
        if str_eq(key.as_str(), "file") {
            values.file = value;
        }
        if str_eq(key.as_str(), "kernel_stack") {
            values.kernel_stack = value;
        }
        if str_eq(key.as_str(), "slab") {
            values.slab = value;
        }
        if str_eq(key.as_str(), "sock") {
            values.sock = value;
        }
        if str_eq(key.as_str(), "shmem") {
            values.shmem = value;
        }
        if str_eq(key.as_str(), "file_mapped") {
            values.file_mapped = value;
        }
        if str_eq(key.as_str(), "file_dirty") {
            values.file_dirty = value;
        }
        if str_eq(key.as_str(), "file_writeback") {
            values.file_writeback = value;
        }
        proof {
            let vs = views_of(lines@);
            let t = vs.subrange(0, i + 1);
            assert(t.drop_last() =~= vs.subrange(0, i as int));
            assert(stat_kv(t.last()) is Some);
            assert(values == memory_stat_of(t));
        }
        i = i + 1;
    }
    proof {
        assert(views_of(lines@).subrange(0, lines@.len() as int) =~= views_of(lines@));
    }
    Ok(values)
}

// ---------------------------------------------------------------------------
// paths and processes
// ---------------------------------------------------------------------------

/// `path` lies under `root`: `root` is a proper textual prefix and the
/// cut falls on a component boundary, or the two are equal.
pub open spec fn path_under_root(path: Seq<char>, root: Seq<char>) -> bool {
    &&& is_prefix(root, path)
    &&& (path.len() == root.len() || path[root.len() as int] == '/' || (root.len() > 0
        && root.last() == '/'))
}

/// Accept exactly the paths under the root.
pub fn validate_path_under_root(path: &str, root: &str) -> (r: Result<(), CgroupError>)
    ensures
        r is Ok <==> path_under_root(path@, root@),
        r matches Err(e) ==> e is ValidationError,
{
    if !crate::text::starts_with_str(path, root) {
        return Err(CgroupError::ValidationError("Path is not under root".to_owned()));
    }
    let plen = path.unicode_len();
    let rlen = root.unicode_len();
    if plen == rlen {
        return Ok(());
    }
    if path.get_char(rlen) == '/' {
        return Ok(());
    }
    if rlen > 0 && root.get_char(rlen - 1) == '/' {
        return Ok(());
    }
    Err(CgroupError::ValidationError("Path is not under root".to_owned()))
}

/// Probe whether a process is alive, through the signal probe; a
/// refusal still counts as alive, any other failure as gone.
pub fn process_exists(pid: u32) -> bool {
    match ProcessExecutor::process_exists(pid) {
        Ok(b) => b,
        Err(_) => false,
    }
}

/// The text after the first `0::` line of a process's cgroup file.
pub open spec fn cgroup_path_of(lines: Seq<Seq<char>>) -> Option<Seq<char>>
    decreases lines.len(),
{
    if lines.len() == 0 {
        None
    } else if is_prefix("0::"@, lines[0]) {
        Some(lines[0].skip(3))
    } else {
        cgroup_path_of(lines.drop_first())
    }
}

/// Parse the unified-hierarchy line of a `/proc/<pid>/cgroup` text.
pub fn get_process_cgroup(content: &str) -> (r: Result<String, CgroupError>)
    ensures
        r is Ok <==> cgroup_path_of(split_lines_spec(content@)) is Some,
        r matches Ok(p) ==> (cgroup_path_of(split_lines_spec(content@)) matches Some(q) && p@
            == q),
        r matches Err(e) ==> e is ParseError,
{
    let lines = split_lines(content);
    proof {
        assert(views_of(lines@).skip(0) =~= views_of(lines@));
    }
    let mut i: usize = 0;
    while i < lines.len()
        invariant
            views_of(lines@) == split_lines_spec(content@),
            i <= lines@.len(),
            cgroup_path_of(views_of(lines@)) == cgroup_path_of(
                views_of(lines@).skip(i as int),
            ),
        decreases lines@.len() - i,
    {
        proof {
            let vs = views_of(lines@);
            assert(vs.skip(i as int)[0] == vs[i as int]);
            assert(vs[i as int] == lines@[i as int]@);
        }
        if crate::text::starts_with_str(lines[i].as_str(), "0::") {
            let line = &lines[i];
            let llen = line.as_str().unicode_len();
            proof {
                reveal_strlit("0::");
                assert("0::"@.len() == 3);
                assert(llen >= 3);
            }
            let rest = line.as_str().substring_char(3, llen);
            proof {
                assert(rest@ =~= lines@[i as int]@.skip(3));
            }
            return Ok(rest.to_owned());
        }
        proof {
            let vs = views_of(lines@);
            assert(vs.skip(i as int).drop_first() =~= vs.skip(i + 1));
            assert(!is_prefix("0::"@, vs[i as int]));
        }
        i = i + 1;
    }
    proof {
        assert(views_of(lines@).skip(lines@.len() as int).len() == 0);
    }
    Err(CgroupError::ParseError("no unified-hierarchy cgroup line".to_owned()))
}

} // verus!
