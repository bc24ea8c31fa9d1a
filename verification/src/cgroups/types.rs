//! Data types of the cgroup subsystem: strategies, limits, entities and
//! configuration.

use vstd::prelude::*;

use crate::errors::CgroupError;
use crate::num::{dec_val, parse_u64};
use crate::text::{all_digits, split_lines, split_lines_spec, views_of};

verus! {

/// How the manager materialises groups.
#[derive(Debug, Clone, Copy, PartialEq, Eq, Structural)]
pub enum CgroupStrategy {
    /// Only the pre-configured static groups.
    Static,
    /// Only groups created at runtime.
    Dynamic,
    /// Both static and dynamic groups.
    Hybrid,
}

/// Whether a group came from configuration or was created at runtime.
#[derive(Debug, Clone, Copy, PartialEq, Eq, Structural)]
pub enum CgroupType {
    Static,
    Dynamic,
}

/// Resource limits of one group. The CPU figure is a whole percentage
/// of one core, above one hundred for several cores.
#[derive(Debug, Clone, Copy, PartialEq, Eq, Structural, Default)]
pub struct ResourceLimits {
    /// CPU ceiling in whole percent, up to 1000.
    pub cpu_limit_percent: Option<u64>,
    /// Hard memory ceiling in bytes.
    pub memory_max: Option<u64>,
    /// Soft memory ceiling in bytes.
    pub memory_high: Option<u64>,
}

/// A limit set is valid when the CPU ceiling is at most 1000 percent,
/// the hard memory ceiling is nonzero, and the soft ceiling does not
/// exceed the hard one when both are set.
pub open spec fn limits_valid(l: ResourceLimits) -> bool {
    &&& (l.cpu_limit_percent matches Some(c) ==> c <= 1000)
    &&& (l.memory_max matches Some(m) ==> m != 0)
    &&& ((l.memory_high matches Some(h)) && (l.memory_max matches Some(m)) ==> l.memory_high->0
        <= l.memory_max->0)
}

impl ResourceLimits {
    /// No limits.
    pub fn new() -> (r: Self)
        ensures
            r == (ResourceLimits {
                cpu_limit_percent: None,
                memory_max: None,
                memory_high: None,
            }),
    {
        ResourceLimits { cpu_limit_percent: None, memory_max: None, memory_high: None }
    }

    /// With a CPU ceiling.
    pub fn with_cpu_limit(self, percent: u64) -> (r: Self)
        ensures
            r == (ResourceLimits { cpu_limit_percent: Some(percent), ..self }),
    {
        ResourceLimits { cpu_limit_percent: Some(percent), ..self }
    }

    /// With a hard memory ceiling.
    pub fn with_memory_max(self, bytes: u64) -> (r: Self)
        ensures
            r == (ResourceLimits { memory_max: Some(bytes), ..self }),
    {
        ResourceLimits { memory_max: Some(bytes), ..self }
    }

    /// With a soft memory ceiling.
    pub fn with_memory_high(self, bytes: u64) -> (r: Self)
        ensures
            r == (ResourceLimits { memory_high: Some(bytes), ..self }),
    {
        ResourceLimits { memory_high: Some(bytes), ..self }
    }

    /// Accept exactly the valid limit sets.
    pub fn validate(&self) -> (r: Result<(), CgroupError>)
        ensures
            r is Ok <==> limits_valid(*self),
            r matches Err(e) ==> e is InvalidLimit,
    {
        if let Some(cpu) = self.cpu_limit_percent {
            if cpu > 1000 {
                return Err(
                    CgroupError::InvalidLimit("CPU limit must be between 0-1000%".to_owned()),
                );
            }
        }
        if let Some(mem_max) = self.memory_max {
            if mem_max == 0 {
                return Err(CgroupError::InvalidLimit("Memory max limit cannot be 0".to_owned()));
            }
        }
        if let (Some(high), Some(max)) = (self.memory_high, self.memory_max) {
            if high > max {
                return Err(
                    CgroupError::InvalidLimit(
                        "Memory high limit cannot exceed max limit".to_owned(),
                    ),
                );
            }
        }
        Ok(())
    }
}

/// A group declared in configuration. The `_mb` fields are conveniences
/// that override the byte-valued limits.
#[derive(Debug, Clone)]
pub struct StaticCgroupConfig {
    pub name: String,
    pub process_patterns: Vec<String>,
    pub limits: ResourceLimits,
    pub cpu_limit_percent_compat: Option<u64>,
    pub memory_max_mb: Option<u64>,
    pub memory_high_mb: Option<u64>,
}

/// The effective limits of a static group: the convenience fields, in
/// mebibytes, override the byte-valued ones.
pub open spec fn effective_limits(c: StaticCgroupConfig) -> ResourceLimits {
    ResourceLimits {
        cpu_limit_percent: if c.cpu_limit_percent_compat is Some {
            c.cpu_limit_percent_compat
        } else {
            c.limits.cpu_limit_percent
        },
        memory_max: match c.memory_max_mb {
            Some(m) => Some((m * 1048576) as u64),
            None => c.limits.memory_max,
        },
        memory_high: match c.memory_high_mb {
            Some(m) => Some((m * 1048576) as u64),
            None => c.limits.memory_high,
        },
    }
}

impl StaticCgroupConfig {
    /// The effective limits, with the mebibyte conveniences applied.
    pub fn get_limits(&self) -> (r: ResourceLimits)
        requires
            self.memory_max_mb matches Some(m) ==> m <= u64::MAX / 1048576,
            self.memory_high_mb matches Some(m) ==> m <= u64::MAX / 1048576,
        ensures
            r == effective_limits(*self),
    {
        let mut limits = self.limits;
        if let Some(cpu) = self.cpu_limit_percent_compat {
            limits.cpu_limit_percent = Some(cpu);
        }
        if let Some(mem_mb) = self.memory_max_mb {
            limits.memory_max = Some(mem_mb * 1048576);
        }
        if let Some(mem_mb) = self.memory_high_mb {
            limits.memory_high = Some(mem_mb * 1048576);
        }
        limits
    }
}

/// Settings for runtime-created groups.
#[derive(Debug, Clone, Copy, PartialEq, Eq, Structural)]
pub struct DynamicCgroupSettings {
    /// Cap on the number of dynamic groups.
    pub max_dynamic_cgroups: usize,
    /// Grace period before an abandoned group is collected.
    pub cleanup_timeout_secs: u64,
    /// Default CPU ceiling in whole percent.
    pub default_cpu_limit: u64,
    /// Default memory ceiling in mebibytes.
    pub default_memory_limit_mb: u64,
}

impl Default for DynamicCgroupSettings {
    /// Fifty groups, five minutes of grace, half a core, one gibibyte.
    fn default() -> (r: Self)
        ensures
            r == (DynamicCgroupSettings {
                max_dynamic_cgroups: 50,
                cleanup_timeout_secs: 300,
                default_cpu_limit: 50,
                default_memory_limit_mb: 1024,
            }),
    {
        DynamicCgroupSettings {
            max_dynamic_cgroups: 50,
            cleanup_timeout_secs: 300,
            default_cpu_limit: 50,
            default_memory_limit_mb: 1024,
        }
    }
}

/// The default slice directory.
pub fn default_root_path() -> (r: String)
    ensures
        r@ == "/sys/fs/cgroup/freezr.slice"@,
{
    "/sys/fs/cgroup/freezr.slice".to_owned()
}

/// The default strategy.
pub fn default_strategy() -> (r: CgroupStrategy)
    ensures
        r == CgroupStrategy::Hybrid,
{
    CgroupStrategy::Hybrid
}

/// The default for the cleanup policy flags.
pub fn default_true() -> (r: bool)
    ensures
        r,
{
    true
}

/// Configuration of the whole subsystem.
#[derive(Debug, Clone)]
pub struct CgroupConfig {
    pub enabled: bool,
    pub root_path: String,
    pub strategy: CgroupStrategy,
    pub static_groups: Vec<StaticCgroupConfig>,
    pub dynamic_settings: DynamicCgroupSettings,
    pub auto_cleanup_on_stop: bool,
    pub restore_processes_on_stop: bool,
}

impl Default for CgroupConfig {
    /// Disabled, under the default slice, hybrid, with cleanup and
    /// restoration on stop.
    fn default() -> (r: Self)
        ensures
            !r.enabled,
            r.root_path@ == "/sys/fs/cgroup/freezr.slice"@,
            r.strategy == CgroupStrategy::Hybrid,
            r.static_groups@.len() == 0,
            r.dynamic_settings == (DynamicCgroupSettings {
                max_dynamic_cgroups: 50,
                cleanup_timeout_secs: 300,
                default_cpu_limit: 50,
                default_memory_limit_mb: 1024,
            }),
            r.auto_cleanup_on_stop,
            r.restore_processes_on_stop,
    {
        CgroupConfig {
            enabled: false,
            root_path: default_root_path(),
            strategy: default_strategy(),
            static_groups: Vec::new(),
            dynamic_settings: DynamicCgroupSettings::default(),
            auto_cleanup_on_stop: true,
            restore_processes_on_stop: true,
        }
    }
}

/// One managed group.
#[derive(Debug, Clone)]
pub struct Cgroup {
    pub name: String,
    /// Absolute directory path of the group.
    pub path: String,
    pub cgroup_type: CgroupType,
    pub limits: ResourceLimits,
    /// The processes the manager believes are inside.
    pub pids: Vec<u32>,
}

/// The process ids listed by a `cgroup.procs` file: one decimal id per
/// line; lines that are not plain numbers are ignored.
pub open spec fn procs_of(lines: Seq<Seq<char>>) -> Seq<u32>
    decreases lines.len(),
{
    if lines.len() == 0 {
        Seq::empty()
    } else {
        let head = procs_of(lines.drop_last());
        let l = crate::text::trim_spec(lines.last());
        if l.len() >= 1 && all_digits(l) && dec_val(l) <= u32::MAX {
            head.push(dec_val(l) as u32)
        } else {
            head
        }
    }
}

impl Cgroup {
    /// A fresh entity with no limits and no known processes.
    pub fn new(name: String, path: String, cgroup_type: CgroupType) -> (c: Self)
        ensures
            c.name == name,
            c.path == path,
            c.cgroup_type == cgroup_type,
            c.limits == (ResourceLimits {
                cpu_limit_percent: None,
                memory_max: None,
                memory_high: None,
            }),
            c.pids@.len() == 0,
    {
        Cgroup { name, path, cgroup_type, limits: ResourceLimits::new(), pids: Vec::new() }
    }

    /// Parse the `cgroup.procs` text of this group into process ids.
    pub fn get_processes(&self, procs_content: &str) -> (r: Vec<u32>)
        ensures
            r@ == procs_of(split_lines_spec(procs_content@)),
    {
        parse_procs(procs_content)
    }

    /// Replace the known process list from the `cgroup.procs` text.
    pub fn reload_processes(&mut self, procs_content: &str)
        ensures
            final(self).pids@ == procs_of(split_lines_spec(procs_content@)),
            final(self).name == old(self).name,
            final(self).path == old(self).path,
            final(self).cgroup_type == old(self).cgroup_type,
            final(self).limits == old(self).limits,
    {
        self.pids = parse_procs(procs_content);
    }
}

/// Parse a `cgroup.procs` text: one id per line, junk ignored.
pub fn parse_procs(content: &str) -> (r: Vec<u32>)
    ensures
        r@ == procs_of(split_lines_spec(content@)),
{
    let lines = split_lines(content);
    let mut out: Vec<u32> = Vec::new();
    let mut i: usize = 0;
    while i < lines.len()
        invariant
            views_of(lines@) == split_lines_spec(content@),
            i <= lines@.len(),
            out@ == procs_of(views_of(lines@).subrange(0, i as int)),
        decreases lines@.len() - i,
    {
        proof {
            let vs = views_of(lines@);
            let t = vs.subrange(0, i + 1);
            assert(t.drop_last() =~= vs.subrange(0, i as int));
            assert(t.last() == vs[i as int]);
            assert(vs[i as int] == lines@[i as int]@);
        }
        let trimmed = crate::text::trim_str(lines[i].as_str());
        match parse_u64(trimmed.as_str()) {
            Some(v) => {
                if v <= u32::MAX as u64 {
                    out.push(v as u32);
                }
            },
            None => {},
        }
        i = i + 1;
    }
    proof {
        assert(views_of(lines@).subrange(0, lines@.len() as int) =~= views_of(lines@));
    }
    out
}

/// The manager's health: whole, or missing pieces.
#[derive(Debug, Clone, PartialEq, Eq)]
pub enum HealthStatus {
    Healthy,
    Degraded(Vec<String>),
    Failed(String),
}

} // verus!
