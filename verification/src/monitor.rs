//! The engine: one tick runs the per-class passes in declared order,
//! then the pressure pass. Counters move exactly as the state machines
//! say, whatever the outcome of the signals the passes send.

use vstd::prelude::*;
use vstd::string::StringExecFns;

use crate::errors::Error;
use crate::executor::{sleep_secs, NiceRequest, ProcessExecutor};
use crate::psi::MemoryPressure;
use crate::systemd::SystemdService;
use crate::types::{MonitorStats, ProcessInfo};
use crate::violations::{
    any_above, classify_pressure, kesl_tally, pids_above, pids_between, pressure_tally,
    select_victims, single_tier_counter_rel, single_tier_step, two_tier_counters_rel,
    two_tier_step, victim_ladder, PressureLevel, PressureThresholds, SingleTierDecision,
    TierAction, TwoTierConfig, TwoTierCounters, TwoTierDecision, Victim,
};
use crate::cgroups::manager::CgroupManager;
use crate::cgroups::types::CgroupConfig;

verus! {

/// The snapshots one tick works on, gathered by the host: per-class
/// process readings, the pressure reading if one was taken, and the
/// tick's monotonic second.
pub struct TickSnapshots {
    pub kesl: Option<ProcessInfo>,
    pub node: Vec<ProcessInfo>,
    pub snap: Vec<ProcessInfo>,
    pub firefox: Vec<ProcessInfo>,
    pub brave: Vec<ProcessInfo>,
    pub telegram: Vec<ProcessInfo>,
    pub nvim: Vec<ProcessInfo>,
    pub pressure: Option<MemoryPressure>,
    pub now: u64,
}

/// The engine: per-class configuration and counters, aggregated
/// statistics, the service controller, and the optional cgroup
/// manager.
pub struct ResourceMonitor {
    pub kesl_service: SystemdService,
    pub stats: MonitorStats,
    pub cgroup_manager: Option<CgroupManager>,

    pub cpu_violations: u32,
    pub memory_violations: u32,
    /// KESL CPU threshold in hundredths of a percent.
    pub cpu_threshold_centi: u64,
    pub memory_threshold_mb: u64,
    pub max_violations: u32,
    pub min_restart_interval_secs: u64,

    pub node_enabled: bool,
    pub node_cpu_threshold_centi: u64,
    pub node_auto_kill: bool,

    pub snap_enabled: bool,
    pub snap_cpu_threshold_centi: u64,
    pub snap_action: TierAction,
    pub snap_nice_level: i32,
    pub snap_freeze_duration_secs: u64,
    pub snap_violations: u32,
    pub snap_max_violations: u32,

    pub firefox_enabled: bool,
    pub firefox_config: TwoTierConfig,
    pub firefox_counters: TwoTierCounters,

    pub brave_enabled: bool,
    pub brave_config: TwoTierConfig,
    pub brave_counters: TwoTierCounters,

    pub telegram_enabled: bool,
    pub telegram_config: TwoTierConfig,
    pub telegram_counters: TwoTierCounters,

    pub memory_pressure_enabled: bool,
    pub pressure_thresholds: PressureThresholds,
    pub pressure_action_warning: TierAction,
    pub pressure_action_critical: TierAction,
    pub pressure_check_interval_secs: u64,
    pub pressure_last_check: u64,
    pub pressure_warning_count: u32,
    pub pressure_critical_count: u32,

    /// Validated priority changes awaiting the host.
    pub pending_renices: Vec<NiceRequest>,
}

/// Headroom on every counter the engine may advance in one tick: the
/// machine limits, nothing more.
pub open spec fn counters_headroom(m: ResourceMonitor) -> bool {
    &&& m.stats.total_checks < u64::MAX
    &&& m.stats.total_violations + 2 <= u64::MAX
    &&& m.cpu_violations < u32::MAX
    &&& m.memory_violations < u32::MAX
    &&& m.stats.cpu_violations < u32::MAX
    &&& m.stats.memory_violations < u32::MAX
    &&& m.stats.total_restarts < u64::MAX
    &&& m.snap_violations < u32::MAX
    &&& m.firefox_counters.kill_hits < u32::MAX
    &&& m.firefox_counters.freeze_hits < u32::MAX
    &&& m.brave_counters.kill_hits < u32::MAX
    &&& m.brave_counters.freeze_hits < u32::MAX
    &&& m.telegram_counters.kill_hits < u32::MAX
    &&& m.telegram_counters.freeze_hits < u32::MAX
    &&& m.pressure_warning_count < u32::MAX
    &&& m.pressure_critical_count < u32::MAX
}

/// The optional cgroup manager, when present, satisfies its invariant.
pub open spec fn monitor_wf(m: ResourceMonitor) -> bool {
    m.cgroup_manager matches Some(g) ==> g.inv()
}

/// The process ids of a snapshot, in order.
pub open spec fn pid_seq(ps: Seq<ProcessInfo>) -> Seq<u32> {
    ps.map_values(|p: ProcessInfo| p.pid)
}

/// The new queue extends the old one, every appended request carrying
/// the given level and one of the listed ids.
pub open spec fn renices_extended(
    pre: Seq<NiceRequest>,
    post: Seq<NiceRequest>,
    pids: Seq<u32>,
    level: i32,
) -> bool {
    &&& post.len() >= pre.len()
    &&& post.subrange(0, pre.len() as int) == pre
    &&& forall|i: int|
        pre.len() <= i < post.len() ==> (#[trigger] post[i]).nice_level == level && pids.contains(
            post[i].pid,
        )
}

/// An element of either part is an element of the concatenation.
proof fn lemma_contains_concat(a: Seq<u32>, b: Seq<u32>, x: u32)
    ensures
        a.contains(x) ==> (a + b).contains(x),
        b.contains(x) ==> (a + b).contains(x),
{
    if a.contains(x) {
        let j = choose|j: int| 0 <= j < a.len() && a[j] == x;
        assert((a + b)[j] == x);
    }
    if b.contains(x) {
        let j = choose|j: int| 0 <= j < b.len() && b[j] == x;
        assert((a + b)[a.len() + j] == x);
    }
}

/// An untouched queue is a degenerate extension.
proof fn lemma_renices_unchanged(q: Seq<NiceRequest>, pids: Seq<u32>, level: i32)
    ensures
        renices_extended(q, q, pids, level),
{
    assert(q.subrange(0, q.len() as int) =~= q);
}

/// Two extensions in a row are one extension over any id list that
/// covers both.
proof fn lemma_renices_extended_trans(
    pre: Seq<NiceRequest>,
    mid: Seq<NiceRequest>,
    post: Seq<NiceRequest>,
    p1: Seq<u32>,
    p2: Seq<u32>,
    all: Seq<u32>,
    level: i32,
)
    requires
        renices_extended(pre, mid, p1, level),
        renices_extended(mid, post, p2, level),
        forall|x: u32| p1.contains(x) ==> all.contains(x),
        forall|x: u32| p2.contains(x) ==> all.contains(x),
    ensures
        renices_extended(pre, post, all, level),
{
    assert(post.subrange(0, pre.len() as int) =~= post.subrange(0, mid.len() as int).subrange(
        0,
        pre.len() as int,
    ));
    assert forall|i: int|
        pre.len() <= i < post.len() implies (#[trigger] post[i]).nice_level == level
        && all.contains(post[i].pid) by {
        if i < mid.len() {
            assert(post.subrange(0, mid.len() as int)[i] == post[i]);
            assert(mid[i] == post[i]);
        }
    }
}

impl ResourceMonitor {
    /// A fresh engine over the supervised service, every class
    /// disabled but the supervised one, counters at zero.
    pub fn new(
        service_name: &str,
        cpu_threshold_centi: u64,
        memory_threshold_mb: u64,
        max_violations: u32,
        min_restart_interval_secs: u64,
    ) -> (m: Self)
        ensures
            m.cpu_threshold_centi == cpu_threshold_centi,
            m.memory_threshold_mb == memory_threshold_mb,
            m.max_violations == max_violations,
            m.min_restart_interval_secs == min_restart_interval_secs,
            m.cpu_violations == 0 && m.memory_violations == 0,
            m.stats == (MonitorStats {
                total_checks: 0,
                total_violations: 0,
                total_kills: 0,
                total_restarts: 0,
                cpu_violations: 0,
                memory_violations: 0,
                last_check_timestamp: 0,
            }),
            !m.node_enabled && !m.snap_enabled && !m.firefox_enabled && !m.brave_enabled
                && !m.telegram_enabled && !m.memory_pressure_enabled,
            m.node_cpu_threshold_centi == 8000,
            m.node_auto_kill == false,
            m.snap_cpu_threshold_centi == 30000,
            m.snap_violations == 0,
            m.snap_max_violations == 3,
            m.firefox_config == (TwoTierConfig {
                freeze_centi: 8000,
                kill_centi: 9500,
                hold_secs: 5,
                max_freeze: 2,
                max_kill: 3,
            }),
            m.firefox_counters == (TwoTierCounters { freeze_hits: 0, kill_hits: 0 }),
            m.brave_config == m.firefox_config,
            m.brave_counters == m.firefox_counters,
            m.telegram_config == m.firefox_config,
            m.telegram_counters == m.firefox_counters,
            m.pressure_warning_count == 0 && m.pressure_critical_count == 0,
            m.pressure_last_check == 0,
            m.kesl_service.service_name@ == service_name@,
            m.kesl_service.last_restart_time == 0,
            m.kesl_service.min_restart_interval == min_restart_interval_secs,
            (m.cgroup_manager is None),
            m.pending_renices@.len() == 0,
            counters_headroom(m),
            monitor_wf(m),
    {
        let mut service = SystemdService::new(service_name);
        service.set_min_restart_interval(min_restart_interval_secs);
        let tier = TwoTierConfig {
            freeze_centi: 8000,
            kill_centi: 9500,
            hold_secs: 5,
            max_freeze: 2,
            max_kill: 3,
        };
        ResourceMonitor {
            kesl_service: service,
            stats: MonitorStats::new(),
            cgroup_manager: None,
            cpu_violations: 0,
            memory_violations: 0,
            cpu_threshold_centi,
            memory_threshold_mb,
            max_violations,
            min_restart_interval_secs,
            node_enabled: false,
            node_cpu_threshold_centi: 8000,
            node_auto_kill: false,
            snap_enabled: false,
            snap_cpu_threshold_centi: 30000,
            snap_action: TierAction::Nice(15),
            snap_nice_level: 15,
            snap_freeze_duration_secs: 5,
            snap_violations: 0,
            snap_max_violations: 3,
            firefox_enabled: false,
            firefox_config: tier,
            firefox_counters: TwoTierCounters::new(),
            brave_enabled: false,
            brave_config: tier,
            brave_counters: TwoTierCounters::new(),
            telegram_enabled: false,
            telegram_config: tier,
            telegram_counters: TwoTierCounters::new(),
            memory_pressure_enabled: false,
            pressure_thresholds: PressureThresholds {
                some_warning: 1000,
                some_critical: 3000,
                full_warning: 500,
                full_critical: 1500,
            },
            pressure_action_warning: TierAction::Unknown,
            pressure_action_critical: TierAction::Freeze(5),
            pressure_check_interval_secs: 5,
            pressure_last_check: 0,
            pressure_warning_count: 0,
            pressure_critical_count: 0,
            pending_renices: Vec::new(),
        }
    }

    /// Watch Node.js processes.
    pub fn enable_node_monitoring(&mut self, cpu_threshold_centi: u64, auto_kill: bool)
        ensures
            *final(self) == (ResourceMonitor {
                node_enabled: true,
                node_cpu_threshold_centi: cpu_threshold_centi,
                node_auto_kill: auto_kill,
                ..*old(self)
            }),
    {
        self.node_enabled = true;
        self.node_cpu_threshold_centi = cpu_threshold_centi;
        self.node_auto_kill = auto_kill;
    }

    /// Watch snap processes with a single-tier action.
    pub fn enable_snap_monitoring(
        &mut self,
        cpu_threshold_centi: u64,
        action: TierAction,
        nice_level: i32,
        freeze_duration_secs: u64,
        max_violations: u32,
    )
        ensures
            *final(self) == (ResourceMonitor {
                snap_enabled: true,
                snap_cpu_threshold_centi: cpu_threshold_centi,
                snap_action: action,
                snap_nice_level: nice_level,
                snap_freeze_duration_secs: freeze_duration_secs,
                snap_max_violations: max_violations,
                ..*old(self)
            }),
    {
        self.snap_enabled = true;
        self.snap_cpu_threshold_centi = cpu_threshold_centi;
        self.snap_action = action;
        self.snap_nice_level = nice_level;
        self.snap_freeze_duration_secs = freeze_duration_secs;
        self.snap_max_violations = max_violations;
    }

    /// Watch Firefox processes with the two-tier ladder.
    pub fn enable_firefox_monitoring(
        &mut self,
        cpu_threshold_freeze_centi: u64,
        cpu_threshold_kill_centi: u64,
        freeze_duration_secs: u64,
        max_violations_freeze: u32,
        max_violations_kill: u32,
    )
        ensures
            *final(self) == (ResourceMonitor {
                firefox_enabled: true,
                firefox_config: TwoTierConfig {
                    freeze_centi: cpu_threshold_freeze_centi,
                    kill_centi: cpu_threshold_kill_centi,
                    hold_secs: freeze_duration_secs,
                    max_freeze: max_violations_freeze,
                    max_kill: max_violations_kill,
                },
                ..*old(self)
            }),
    {
        self.firefox_enabled = true;
        self.firefox_config = TwoTierConfig {
            freeze_centi: cpu_threshold_freeze_centi,
            kill_centi: cpu_threshold_kill_centi,
            hold_secs: freeze_duration_secs,
            max_freeze: max_violations_freeze,
            max_kill: max_violations_kill,
        };
    }

    /// Watch Brave processes with the two-tier ladder.
    pub fn enable_brave_monitoring(
        &mut self,
        cpu_threshold_freeze_centi: u64,
        cpu_threshold_kill_centi: u64,
        freeze_duration_secs: u64,
        max_violations_freeze: u32,
        max_violations_kill: u32,
    )
        ensures
            *final(self) == (ResourceMonitor {
                brave_enabled: true,
                brave_config: TwoTierConfig {
                    freeze_centi: cpu_threshold_freeze_centi,
                    kill_centi: cpu_threshold_kill_centi,
                    hold_secs: freeze_duration_secs,
                    max_freeze: max_violations_freeze,
                    max_kill: max_violations_kill,
                },
                ..*old(self)
            }),
    {
        self.brave_enabled = true;
        self.brave_config = TwoTierConfig {
            freeze_centi: cpu_threshold_freeze_centi,
            kill_centi: cpu_threshold_kill_centi,
            hold_secs: freeze_duration_secs,
            max_freeze: max_violations_freeze,
            max_kill: max_violations_kill,
        };
    }

    /// Watch Telegram processes with the two-tier ladder.
    pub fn enable_telegram_monitoring(
        &mut self,
        cpu_threshold_freeze_centi: u64,
        cpu_threshold_kill_centi: u64,
        freeze_duration_secs: u64,
        max_violations_freeze: u32,
        max_violations_kill: u32,
    )
        ensures
            *final(self) == (ResourceMonitor {
                telegram_enabled: true,
                telegram_config: TwoTierConfig {
                    freeze_centi: cpu_threshold_freeze_centi,
                    kill_centi: cpu_threshold_kill_centi,
                    hold_secs: freeze_duration_secs,
                    max_freeze: max_violations_freeze,
                    max_kill: max_violations_kill,
                },
                ..*old(self)
            }),
    {
        self.telegram_enabled = true;
        self.telegram_config = TwoTierConfig {
            freeze_centi: cpu_threshold_freeze_centi,
            kill_centi: cpu_threshold_kill_centi,
            hold_secs: freeze_duration_secs,
            max_freeze: max_violations_freeze,
            max_kill: max_violations_kill,
        };
    }

    /// Watch the kernel's memory-pressure telemetry.
    pub fn enable_memory_pressure_monitoring(
        &mut self,
        some_threshold_warning_centi: u64,
        some_threshold_critical_centi: u64,
        full_threshold_warning_centi: u64,
        full_threshold_critical_centi: u64,
        action_warning: TierAction,
        action_critical: TierAction,
        check_interval_secs: u64,
    )
        ensures
            *final(self) == (ResourceMonitor {
                memory_pressure_enabled: true,
                pressure_thresholds: PressureThresholds {
                    some_warning: some_threshold_warning_centi,
                    some_critical: some_threshold_critical_centi,
                    full_warning: full_threshold_warning_centi,
                    full_critical: full_threshold_critical_centi,
                },
                pressure_action_warning: action_warning,
                pressure_action_critical: action_critical,
                pressure_check_interval_secs: check_interval_secs,
                ..*old(self)
            }),
    {
        self.memory_pressure_enabled = true;
        self.pressure_thresholds = PressureThresholds {
            some_warning: some_threshold_warning_centi,
            some_critical: some_threshold_critical_centi,
            full_warning: full_threshold_warning_centi,
            full_critical: full_threshold_critical_centi,
        };
        self.pressure_action_warning = action_warning;
        self.pressure_action_critical = action_critical;
        self.pressure_check_interval_secs = check_interval_secs;
    }

    /// The aggregated counters.
    pub fn stats(&self) -> (r: &MonitorStats)
        ensures
            r == self.stats,
    {
        &self.stats
    }

    /// The supervised service's consecutive violation counters.
    pub fn violations(&self) -> (r: (u32, u32))
        ensures
            r.0 == self.cpu_violations,
            r.1 == self.memory_violations,
    {
        (self.cpu_violations, self.memory_violations)
    }

    /// Clear the supervised service's consecutive violation counters.
    pub fn reset_violations(&mut self)
        ensures
            *final(self) == (ResourceMonitor {
                cpu_violations: 0,
                memory_violations: 0,
                ..*old(self)
            }),
    {
        self.cpu_violations = 0;
        self.memory_violations = 0;
    }

    /// The supervised process's load and memory, from its snapshot.
    pub fn get_kesl_status(&self, process: &Option<ProcessInfo>) -> (r: Option<(u64, u64)>)
        ensures
            match process {
                Some(p) => r == Some((p.cpu_centi_percent, (p.memory_kb / 1024) as u64)),
                None => r is None,
            },
    {
        match process {
            Some(p) => Some((p.cpu_centi_percent, p.memory_kb / 1024)),
            None => None,
        }
    }

    /// The pressure figures for an observer: the ten-second averages,
    /// the coarse label, and the two counters — when watching is on and
    /// a reading is at hand.
    pub fn get_memory_pressure_status(&self, reading: &Option<MemoryPressure>) -> (r: Option<
        (u64, u64, String, u32, u32),
    >)
        ensures
            !self.memory_pressure_enabled ==> r is None,
            (reading is None) ==> r is None,
            self.memory_pressure_enabled && (reading matches Some(p)) ==> (reading matches Some(
                p,
            ) && r matches Some(t) && t.0 == p.some_avg10 && t.1 == p.full_avg10 && t.2@
                == crate::psi::status_text(*p) && t.3 == self.pressure_warning_count && t.4
                == self.pressure_critical_count),
    {
        if !self.memory_pressure_enabled {
            return None;
        }
        match reading {
            Some(p) => {
                let label = p.status();
                let mut status = String::new();
                status.append(label);
                Some(
                    (
                        p.some_avg10,
                        p.full_avg10,
                        status,
                        self.pressure_warning_count,
                        self.pressure_critical_count,
                    ),
                )
            },
            None => None,
        }
    }

    /// Hand over the validated priority changes gathered this tick.
    pub fn take_renice_requests(&mut self) -> (r: Vec<NiceRequest>)
        ensures
            r == old(self).pending_renices,
            final(self).pending_renices@.len() == 0,
            (ResourceMonitor { pending_renices: old(self).pending_renices, ..*final(self) })
                == *old(self),
    {
        let mut out: Vec<NiceRequest> = Vec::new();
        core::mem::swap(&mut out, &mut self.pending_renices);
        out
    }
}

} // verus!

verus! {

impl ResourceMonitor {
    /// Restart the supervised service behind its guard; only a full
    /// success clears the consecutive counters and counts a restart.
    fn restart_kesl_service(&mut self) -> (r: Result<(), Error>)
        requires
            old(self).stats.total_restarts < u64::MAX,
        ensures
            (ResourceMonitor {
                kesl_service: old(self).kesl_service,
                cpu_violations: old(self).cpu_violations,
                memory_violations: old(self).memory_violations,
                stats: old(self).stats,
                ..*final(self)
            }) == *old(self),
            r is Ok ==> final(self).cpu_violations == 0 && final(self).memory_violations == 0
                && final(self).stats == (MonitorStats {
                total_restarts: (old(self).stats.total_restarts + 1) as u64,
                cpu_violations: 0,
                memory_violations: 0,
                ..old(self).stats
            }),
            r is Err ==> final(self).cpu_violations == old(self).cpu_violations && final(self).memory_violations == old(self).memory_violations && final(self).stats == old(self).stats,
            r matches Err(e) ==> e is Systemd,
    {
        match self.kesl_service.is_active() {
            Ok(true) => {},
            Ok(false) => {
                return Err(Error::Systemd("Service is not active".to_owned()));
            },
            Err(e) => {
                return Err(e);
            },
        }
        if let Err(e) = self.kesl_service.restart_with_reload() {
            return Err(e);
        }
        self.cpu_violations = 0;
        self.memory_violations = 0;
        self.stats.record_restart();
        Ok(())
    }

    /// The supervised-service pass: advance or clear each counter
    /// against its threshold; when either reaches the cap, restart.
    /// After a successful restart both counters are zero and exactly
    /// one restart was counted.
    pub fn check_kesl(&mut self, process: &Option<ProcessInfo>) -> (r: Result<(), Error>)
        requires
            old(self).cpu_violations < u32::MAX,
            old(self).memory_violations < u32::MAX,
            old(self).stats.cpu_violations < u32::MAX,
            old(self).stats.memory_violations < u32::MAX,
            old(self).stats.total_violations + 2 <= u64::MAX,
            old(self).stats.total_restarts < u64::MAX,
        ensures
            (ResourceMonitor {
                kesl_service: old(self).kesl_service,
                cpu_violations: old(self).cpu_violations,
                memory_violations: old(self).memory_violations,
                stats: old(self).stats,
                ..*final(self)
            }) == *old(self),
            final(self).stats.total_checks == old(self).stats.total_checks,
            final(self).stats.total_kills == old(self).stats.total_kills,
            process is None ==> r is Ok && final(self).cpu_violations == old(self).cpu_violations
                && final(self).memory_violations == old(self).memory_violations && final(self).stats == old(self).stats,
            process matches Some(p) ==> ({
                let cpu_tally: u32 = if p.cpu_centi_percent > old(self).cpu_threshold_centi {
                    (old(self).cpu_violations + 1) as u32
                } else {
                    0
                };
                let mem_tally: u32 = if p.memory_mb > old(self).memory_threshold_mb {
                    (old(self).memory_violations + 1) as u32
                } else {
                    0
                };
                let due = cpu_tally >= old(self).max_violations || mem_tally >= old(self).max_violations;
                &&& !due ==> r is Ok && final(self).cpu_violations == cpu_tally && final(self).memory_violations == mem_tally && final(self).stats.total_restarts == old(self).stats.total_restarts
                &&& due && r is Ok ==> final(self).cpu_violations == 0 && final(self).memory_violations == 0 && final(self).stats.total_restarts == old(self).stats.total_restarts + 1
                &&& due && r is Err ==> final(self).cpu_violations == cpu_tally && final(self).memory_violations == mem_tally && final(self).stats.total_restarts == old(self).stats.total_restarts
            }),
    {
        let p = match process {
            Some(p) => p,
            None => {
                return Ok(());
            },
        };
        let restart_due = kesl_tally(
            &mut self.cpu_violations,
            &mut self.memory_violations,
            self.cpu_threshold_centi,
            self.memory_threshold_mb,
            self.max_violations,
            p,
        );
        if p.cpu_exceeds(self.cpu_threshold_centi) {
            self.stats.increment_cpu_violation();
        }
        if p.memory_exceeds(self.memory_threshold_mb) {
            self.stats.increment_memory_violation();
        }
        if restart_due {
            if let Err(e) = self.restart_kesl_service() {
                return Err(e);
            }
        }
        Ok(())
    }

    /// Attempt to end each listed process, counting the successes.
    fn kill_all(stats: &mut MonitorStats, pids: &Vec<u32>)
        ensures
            final(stats).total_kills >= old(stats).total_kills,
            final(stats).total_kills <= old(stats).total_kills + pids@.len(),
            (MonitorStats { total_kills: old(stats).total_kills, ..*final(stats) }) == *old(
                stats,
            ),
    {
        let mut i: usize = 0;
        while i < pids.len()
            invariant
                stats.total_kills >= old(stats).total_kills,
                stats.total_kills <= old(stats).total_kills + i,
                i <= pids@.len(),
                (MonitorStats { total_kills: old(stats).total_kills, ..*stats }) == *old(stats),
            decreases pids@.len() - i,
        {
            if let Ok(()) = ProcessExecutor::kill_process(pids[i]) {
                if stats.total_kills < u64::MAX {
                    stats.record_kill();
                }
            }
            i = i + 1;
        }
    }

    /// Freeze each listed process, hold, and resume it.
    fn freeze_hold_all(pids: &Vec<u32>, hold_secs: u64) {
        let hold: u32 = if hold_secs > 4294967295 {
            4294967295u32
        } else {
            hold_secs as u32
        };
        let mut i: usize = 0;
        while i < pids.len()
            decreases pids@.len() - i,
        {
            if let Ok(()) = ProcessExecutor::freeze_process(pids[i]) {
                sleep_secs(hold);
                let _ = ProcessExecutor::unfreeze_process(pids[i]);
            }
            i = i + 1;
        }
    }

    /// The Node.js pass: no counters; each offender is ended at once
    /// when automatic killing is on.
    pub fn check_node_processes(&mut self, processes: &Vec<ProcessInfo>) -> (r: Result<(), Error>)
        ensures
            r is Ok,
            (ResourceMonitor { stats: old(self).stats, ..*final(self) }) == *old(self),
            final(self).stats.total_kills >= old(self).stats.total_kills,
            (MonitorStats { total_kills: old(self).stats.total_kills, ..final(self).stats })
                == old(self).stats,
            !old(self).node_auto_kill ==> final(self).stats == old(self).stats,
    {
        let offenders = crate::violations::collect_above(processes, self.node_cpu_threshold_centi);
        if self.node_auto_kill {
            Self::kill_all(&mut self.stats, &offenders);
        }
        Ok(())
    }

    /// The snap pass: the single-tier machine, then the configured
    /// action on every offender when it fires.
    pub fn check_snap_processes(&mut self, processes: &Vec<ProcessInfo>) -> (r: Result<(), Error>)
        requires
            old(self).snap_violations < u32::MAX,
        ensures
            r is Ok,
            single_tier_counter_rel(
                old(self).snap_violations,
                final(self).snap_violations,
                old(self).snap_cpu_threshold_centi,
                old(self).snap_max_violations,
                processes@,
            ),
            (ResourceMonitor {
                snap_violations: old(self).snap_violations,
                stats: old(self).stats,
                pending_renices: old(self).pending_renices,
                ..*final(self)
            }) == *old(self),
            (MonitorStats { total_kills: old(self).stats.total_kills, ..final(self).stats })
                == old(self).stats,
            renices_extended(
                old(self).pending_renices@,
                final(self).pending_renices@,
                pids_above(processes@, old(self).snap_cpu_threshold_centi),
                old(self).snap_nice_level,
            ),
    {
        let decision = single_tier_step(
            &mut self.snap_violations,
            self.snap_cpu_threshold_centi,
            self.snap_max_violations,
            processes,
        );
        let mut queued = false;
        if let SingleTierDecision::FireNow(pids) = decision {
            let action = self.snap_action;
            match action {
                TierAction::Nice(_level) => {
                    let level = self.snap_nice_level;
                    self.queue_renices(&pids, level);
                    queued = true;
                },
                TierAction::Freeze(_hold) => {
                    let hold = self.snap_freeze_duration_secs;
                    Self::freeze_hold_all(&pids, hold);
                },
                TierAction::Kill => {
                    Self::kill_all(&mut self.stats, &pids);
                },
                TierAction::Unknown => {},
            }
        }
        proof {
            if !queued {
                lemma_renices_unchanged(
                    self.pending_renices@,
                    pids_above(processes@, old(self).snap_cpu_threshold_centi),
                    old(self).snap_nice_level,
                );
            }
        }
        Ok(())
    }

    /// Validate and queue a priority change for each listed process;
    /// every queued request carries the given level and a listed id.
    fn queue_renices(&mut self, pids: &Vec<u32>, level: i32)
        ensures
            (ResourceMonitor { pending_renices: old(self).pending_renices, ..*final(self) })
                == *old(self),
            renices_extended(
                old(self).pending_renices@,
                final(self).pending_renices@,
                pids@,
                level,
            ),
    {
        proof {
            assert(self.pending_renices@.subrange(0, self.pending_renices@.len() as int)
                =~= self.pending_renices@);
        }
        let mut i: usize = 0;
        while i < pids.len()
            invariant
                (ResourceMonitor { pending_renices: old(self).pending_renices, ..*self }) == *old(self),
                i <= pids@.len(),
                renices_extended(old(self).pending_renices@, self.pending_renices@, pids@, level),
            decreases pids@.len() - i,
        {
            if let Ok(q) = ProcessExecutor::renice_process(pids[i], level) {
                let ghost qb = self.pending_renices@;
                self.pending_renices.push(q);
                proof {
                    assert(pids@.contains(pids@[i as int]));
                    assert(self.pending_renices@.subrange(
                        0,
                        old(self).pending_renices@.len() as int,
                    ) =~= qb.subrange(0, old(self).pending_renices@.len() as int));
                }
            }
            i = i + 1;
        }
    }

    /// One two-tier pass over a class: advance the machine, then end
    /// or freeze-hold the offenders when a tier fires.
    fn run_two_tier(
        counters: &mut TwoTierCounters,
        cfg: &TwoTierConfig,
        stats: &mut MonitorStats,
        processes: &Vec<ProcessInfo>,
    )
        requires
            old(counters).kill_hits < u32::MAX,
            old(counters).freeze_hits < u32::MAX,
        ensures
            two_tier_counters_rel(*old(counters), *final(counters), *cfg, processes@),
            final(stats).total_kills >= old(stats).total_kills,
            (MonitorStats { total_kills: old(stats).total_kills, ..*final(stats) }) == *old(
                stats,
            ),
    {
        let decision = two_tier_step(counters, cfg, processes);
        match decision {
            TwoTierDecision::KillNow(pids) => {
                Self::kill_all(stats, &pids);
            },
            TwoTierDecision::FreezeNow(pids) => {
                Self::freeze_hold_all(&pids, cfg.hold_secs);
            },
            _ => {},
        }
    }

    /// The Firefox pass.
    pub fn check_firefox_processes(&mut self, processes: &Vec<ProcessInfo>) -> (r: Result<
        (),
        Error,
    >)
        requires
            old(self).firefox_counters.kill_hits < u32::MAX,
            old(self).firefox_counters.freeze_hits < u32::MAX,
        ensures
            r is Ok,
            two_tier_counters_rel(
                old(self).firefox_counters,
                final(self).firefox_counters,
                old(self).firefox_config,
                processes@,
            ),
            (ResourceMonitor {
                firefox_counters: old(self).firefox_counters,
                stats: old(self).stats,
                ..*final(self)
            }) == *old(self),
            (MonitorStats { total_kills: old(self).stats.total_kills, ..final(self).stats })
                == old(self).stats,
    {
        Self::run_two_tier(
            &mut self.firefox_counters,
            &self.firefox_config,
            &mut self.stats,
            processes,
        );
        Ok(())
    }

    /// The Brave pass.
    pub fn check_brave_processes(&mut self, processes: &Vec<ProcessInfo>) -> (r: Result<
        (),
        Error,
    >)
        requires
            old(self).brave_counters.kill_hits < u32::MAX,
            old(self).brave_counters.freeze_hits < u32::MAX,
        ensures
            r is Ok,
            two_tier_counters_rel(
                old(self).brave_counters,
                final(self).brave_counters,
                old(self).brave_config,
                processes@,
            ),
            (ResourceMonitor {
                brave_counters: old(self).brave_counters,
                stats: old(self).stats,
                ..*final(self)
            }) == *old(self),
            (MonitorStats { total_kills: old(self).stats.total_kills, ..final(self).stats })
                == old(self).stats,
    {
        Self::run_two_tier(
            &mut self.brave_counters,
            &self.brave_config,
            &mut self.stats,
            processes,
        );
        Ok(())
    }

    /// The Telegram pass.
    pub fn check_telegram_processes(&mut self, processes: &Vec<ProcessInfo>) -> (r: Result<
        (),
        Error,
    >)
        requires
            old(self).telegram_counters.kill_hits < u32::MAX,
            old(self).telegram_counters.freeze_hits < u32::MAX,
        ensures
            r is Ok,
            two_tier_counters_rel(
                old(self).telegram_counters,
                final(self).telegram_counters,
                old(self).telegram_config,
                processes@,
            ),
            (ResourceMonitor {
                telegram_counters: old(self).telegram_counters,
                stats: old(self).stats,
                ..*final(self)
            }) == *old(self),
            (MonitorStats { total_kills: old(self).stats.total_kills, ..final(self).stats })
                == old(self).stats,
    {
        Self::run_two_tier(
            &mut self.telegram_counters,
            &self.telegram_config,
            &mut self.stats,
            processes,
        );
        Ok(())
    }
}

} // verus!

verus! {

impl ResourceMonitor {
    /// Queue a dampening priority for every browser and messenger
    /// process: every queued request carries level fifteen and the id
    /// of one of the listed processes.
    pub fn nice_non_critical_processes(
        &mut self,
        firefox: &Vec<ProcessInfo>,
        brave: &Vec<ProcessInfo>,
        telegram: &Vec<ProcessInfo>,
    ) -> (r: Result<(), Error>)
        ensures
            r is Ok,
            (ResourceMonitor { pending_renices: old(self).pending_renices, ..*final(self) })
                == *old(self),
            renices_extended(
                old(self).pending_renices@,
                final(self).pending_renices@,
                pid_seq(firefox@) + pid_seq(brave@) + pid_seq(telegram@),
                15,
            ),
    {
        let ghost all = pid_seq(firefox@) + pid_seq(brave@) + pid_seq(telegram@);
        let ghost q0 = self.pending_renices@;
        let ffall = all_pids(firefox);
        let brall = all_pids(brave);
        let tgall = all_pids(telegram);
        proof {
            assert forall|x: u32| pid_seq(firefox@).contains(x) implies all.contains(x) by {
                lemma_contains_concat(pid_seq(firefox@), pid_seq(brave@), x);
                lemma_contains_concat(pid_seq(firefox@) + pid_seq(brave@), pid_seq(telegram@), x);
            }
            assert forall|x: u32| pid_seq(brave@).contains(x) implies all.contains(x) by {
                lemma_contains_concat(pid_seq(firefox@), pid_seq(brave@), x);
                lemma_contains_concat(pid_seq(firefox@) + pid_seq(brave@), pid_seq(telegram@), x);
            }
            assert forall|x: u32| pid_seq(telegram@).contains(x) implies all.contains(x) by {
                lemma_contains_concat(pid_seq(firefox@) + pid_seq(brave@), pid_seq(telegram@), x);
            }
        }
        self.queue_renices(&ffall, 15);
        let ghost q1 = self.pending_renices@;
        self.queue_renices(&brall, 15);
        let ghost q2 = self.pending_renices@;
        proof {
            lemma_renices_extended_trans(
                q0,
                q1,
                q2,
                pid_seq(firefox@),
                pid_seq(brave@),
                all,
                15,
            );
        }
        self.queue_renices(&tgall, 15);
        proof {
            lemma_renices_extended_trans(
                q0,
                q2,
                self.pending_renices@,
                all,
                pid_seq(telegram@),
                all,
                15,
            );
        }
        Ok(())
    }

    /// Freeze every browser and messenger process, hold five seconds,
    /// and resume them all; resumption is attempted for every process
    /// whatever happened to the freezes.
    pub fn freeze_non_critical_processes(
        &mut self,
        firefox: &Vec<ProcessInfo>,
        brave: &Vec<ProcessInfo>,
        telegram: &Vec<ProcessInfo>,
    ) -> (r: Result<(), Error>)
        ensures
            r is Ok,
            *final(self) == *old(self),
    {
        let ffall = all_pids(firefox);
        let brall = all_pids(brave);
        let tgall = all_pids(telegram);
        freeze_list(&ffall);
        freeze_list(&brall);
        freeze_list(&tgall);
        sleep_secs(5);
        unfreeze_list(&ffall);
        unfreeze_list(&brall);
        unfreeze_list(&tgall);
        Ok(())
    }

    /// The prioritised kill ladder: every Brave process, every Telegram
    /// process, each editor above one gibibyte, every Firefox process —
    /// in that order. Returns how many were ended and the resident
    /// kilobytes they held.
    pub fn kill_non_critical_processes(
        &mut self,
        brave: &Vec<ProcessInfo>,
        telegram: &Vec<ProcessInfo>,
        nvim: &Vec<ProcessInfo>,
        firefox: &Vec<ProcessInfo>,
    ) -> (r: (u64, u64))
        ensures
            r.0 <= victim_ladder(brave@, telegram@, nvim@, firefox@).len(),
            (ResourceMonitor { stats: old(self).stats, ..*final(self) }) == *old(self),
            final(self).stats.total_kills >= old(self).stats.total_kills,
            (MonitorStats { total_kills: old(self).stats.total_kills, ..final(self).stats })
                == old(self).stats,
    {
        let victims = select_victims(brave, telegram, nvim, firefox);
        let mut killed: u64 = 0;
        let mut freed_kb: u64 = 0;
        let mut i: usize = 0;
        while i < victims.len()
            invariant
                victims@ == victim_ladder(brave@, telegram@, nvim@, firefox@),
                i <= victims@.len(),
                killed <= i,
                self.stats.total_kills >= old(self).stats.total_kills,
                (MonitorStats { total_kills: old(self).stats.total_kills, ..self.stats }) == old(self).stats,
                (ResourceMonitor { stats: old(self).stats, ..*self }) == *old(self),
            decreases victims@.len() - i,
        {
            let v = victims[i];
            if let Ok(()) = ProcessExecutor::kill_process(v.pid) {
                killed = killed + 1;
                freed_kb = if freed_kb > u64::MAX - v.memory_kb {
                    u64::MAX
                } else {
                    freed_kb + v.memory_kb
                };
                if self.stats.total_kills < u64::MAX {
                    self.stats.record_kill();
                }
            }
            i = i + 1;
        }
        (killed, freed_kb)
    }

    /// Run the configured action for a pressure level.
    fn execute_memory_pressure_action(
        &mut self,
        action: TierAction,
        firefox: &Vec<ProcessInfo>,
        brave: &Vec<ProcessInfo>,
        telegram: &Vec<ProcessInfo>,
        nvim: &Vec<ProcessInfo>,
    ) -> (r: Result<(), Error>)
        ensures
            r is Ok,
            (ResourceMonitor {
                stats: old(self).stats,
                pending_renices: old(self).pending_renices,
                ..*final(self)
            }) == *old(self),
            (MonitorStats { total_kills: old(self).stats.total_kills, ..final(self).stats })
                == old(self).stats,
            renices_extended(
                old(self).pending_renices@,
                final(self).pending_renices@,
                pid_seq(firefox@) + pid_seq(brave@) + pid_seq(telegram@),
                15,
            ),
    {
        let r = match action {
            TierAction::Nice(_level) => self.nice_non_critical_processes(
                firefox,
                brave,
                telegram,
            ),
            TierAction::Freeze(_hold) => self.freeze_non_critical_processes(
                firefox,
                brave,
                telegram,
            ),
            TierAction::Kill => {
                let _counts = self.kill_non_critical_processes(brave, telegram, nvim, firefox);
                Ok(())
            },
            TierAction::Unknown => Ok(()),
        };
        proof {
            if !(action is Nice) {
                lemma_renices_unchanged(
                    self.pending_renices@,
                    pid_seq(firefox@) + pid_seq(brave@) + pid_seq(telegram@),
                    15,
                );
            }
        }
        r
    }

    /// The pressure pass: classify the reading, advance the counter of
    /// the observed level (a normal reading clears both), and run the
    /// configured action. Critical wins over warning.
    pub fn check_memory_pressure(
        &mut self,
        pressure: &MemoryPressure,
        firefox: &Vec<ProcessInfo>,
        brave: &Vec<ProcessInfo>,
        telegram: &Vec<ProcessInfo>,
        nvim: &Vec<ProcessInfo>,
    ) -> (r: Result<(), Error>)
        requires
            old(self).pressure_warning_count < u32::MAX,
            old(self).pressure_critical_count < u32::MAX,
        ensures
            r is Ok,
            ({
                let level = crate::violations::pressure_level(
                    *pressure,
                    old(self).pressure_thresholds,
                );
                &&& (level is Critical) ==> final(self).pressure_critical_count == old(self).pressure_critical_count + 1 && final(self).pressure_warning_count == old(self).pressure_warning_count
                &&& (level is Warning) ==> final(self).pressure_warning_count == old(self).pressure_warning_count + 1 && final(self).pressure_critical_count == old(self).pressure_critical_count
                &&& (level is Normal) ==> final(self).pressure_warning_count == 0 && final(self).pressure_critical_count == 0
            }),
            (ResourceMonitor {
                pressure_warning_count: old(self).pressure_warning_count,
                pressure_critical_count: old(self).pressure_critical_count,
                stats: old(self).stats,
                pending_renices: old(self).pending_renices,
                ..*final(self)
            }) == *old(self),
            (MonitorStats { total_kills: old(self).stats.total_kills, ..final(self).stats })
                == old(self).stats,
            renices_extended(
                old(self).pending_renices@,
                final(self).pending_renices@,
                pid_seq(firefox@) + pid_seq(brave@) + pid_seq(telegram@),
                15,
            ),
    {
        let level = classify_pressure(pressure, &self.pressure_thresholds);
        let _ = pressure_tally(
            &mut self.pressure_warning_count,
            &mut self.pressure_critical_count,
            level,
        );
        let r = match level {
            PressureLevel::Critical => {
                let action = self.pressure_action_critical;
                self.execute_memory_pressure_action(action, firefox, brave, telegram, nvim)
            },
            PressureLevel::Warning => {
                let action = self.pressure_action_warning;
                self.execute_memory_pressure_action(action, firefox, brave, telegram, nvim)
            },
            PressureLevel::Normal => Ok(()),
        };
        proof {
            if level is Normal {
                lemma_renices_unchanged(
                    self.pending_renices@,
                    pid_seq(firefox@) + pid_seq(brave@) + pid_seq(telegram@),
                    15,
                );
            }
        }
        r
    }

    /// One tick: count it, then run the enabled passes in declared
    /// order — supervised service, Node.js, snap, Firefox, Brave,
    /// Telegram, and the gated pressure pass. A failing pass never
    /// stops the tick: every enabled class's counters move exactly as
    /// its state machine says over the tick's snapshots, disabled
    /// classes are untouched, and the pressure timer is stamped exactly
    /// when its interval was due.
    pub fn check(&mut self, snaps: &TickSnapshots) -> (r: Result<(), Error>)
        requires
            counters_headroom(*old(self)),
        ensures
            r is Ok,
            final(self).stats.total_checks == old(self).stats.total_checks + 1,
            final(self).cgroup_manager == old(self).cgroup_manager,
            monitor_wf(*old(self)) ==> monitor_wf(*final(self)),
            (ResourceMonitor {
                kesl_service: old(self).kesl_service,
                stats: old(self).stats,
                cpu_violations: old(self).cpu_violations,
                memory_violations: old(self).memory_violations,
                snap_violations: old(self).snap_violations,
                firefox_counters: old(self).firefox_counters,
                brave_counters: old(self).brave_counters,
                telegram_counters: old(self).telegram_counters,
                pressure_warning_count: old(self).pressure_warning_count,
                pressure_critical_count: old(self).pressure_critical_count,
                pressure_last_check: old(self).pressure_last_check,
                pending_renices: old(self).pending_renices,
                ..*final(self)
            }) == *old(self),
            (snaps.kesl is None) ==> final(self).cpu_violations == old(self).cpu_violations
                && final(self).memory_violations == old(self).memory_violations && final(self).stats.total_restarts == old(self).stats.total_restarts,
            snaps.kesl matches Some(p) ==> ({
                let cpu_tally: u32 = if p.cpu_centi_percent > old(self).cpu_threshold_centi {
                    (old(self).cpu_violations + 1) as u32
                } else {
                    0
                };
                let mem_tally: u32 = if p.memory_mb > old(self).memory_threshold_mb {
                    (old(self).memory_violations + 1) as u32
                } else {
                    0
                };
                let due = cpu_tally >= old(self).max_violations || mem_tally >= old(self).max_violations;
                &&& !due ==> final(self).cpu_violations == cpu_tally && final(self).memory_violations == mem_tally && final(self).stats.total_restarts == old(self).stats.total_restarts
                &&& due ==> (final(self).cpu_violations == cpu_tally && final(self).memory_violations == mem_tally && final(self).stats.total_restarts == old(self).stats.total_restarts) || (final(self).cpu_violations == 0 && final(self).memory_violations == 0 && final(self).stats.total_restarts == old(self).stats.total_restarts + 1)
            }),
            old(self).snap_enabled ==> single_tier_counter_rel(
                old(self).snap_violations,
                final(self).snap_violations,
                old(self).snap_cpu_threshold_centi,
                old(self).snap_max_violations,
                snaps.snap@,
            ),
            !old(self).snap_enabled ==> final(self).snap_violations == old(self).snap_violations,
            old(self).firefox_enabled ==> two_tier_counters_rel(
                old(self).firefox_counters,
                final(self).firefox_counters,
                old(self).firefox_config,
                snaps.firefox@,
            ),
            !old(self).firefox_enabled ==> final(self).firefox_counters == old(self).firefox_counters,
            old(self).brave_enabled ==> two_tier_counters_rel(
                old(self).brave_counters,
                final(self).brave_counters,
                old(self).brave_config,
                snaps.brave@,
            ),
            !old(self).brave_enabled ==> final(self).brave_counters == old(self).brave_counters,
            old(self).telegram_enabled ==> two_tier_counters_rel(
                old(self).telegram_counters,
                final(self).telegram_counters,
                old(self).telegram_config,
                snaps.telegram@,
            ),
            !old(self).telegram_enabled ==> final(self).telegram_counters == old(self).telegram_counters,
            ({
                let due = old(self).memory_pressure_enabled && snaps.now >= old(self).pressure_last_check && snaps.now - old(self).pressure_last_check >= old(self).pressure_check_interval_secs;
                &&& due ==> final(self).pressure_last_check == snaps.now
                &&& !due ==> final(self).pressure_last_check == old(self).pressure_last_check
                    && final(self).pressure_warning_count == old(self).pressure_warning_count
                    && final(self).pressure_critical_count == old(self).pressure_critical_count
                &&& due && (snaps.pressure is None) ==> final(self).pressure_warning_count == old(self).pressure_warning_count && final(self).pressure_critical_count == old(self).pressure_critical_count
                &&& due && (snaps.pressure is Some) ==> (snaps.pressure matches Some(pr) && {
                    let level = crate::violations::pressure_level(pr, old(self).pressure_thresholds);
                    &&& (level is Critical) ==> final(self).pressure_critical_count == old(self).pressure_critical_count + 1 && final(self).pressure_warning_count == old(self).pressure_warning_count
                    &&& (level is Warning) ==> final(self).pressure_warning_count == old(self).pressure_warning_count + 1 && final(self).pressure_critical_count == old(self).pressure_critical_count
                    &&& (level is Normal) ==> final(self).pressure_warning_count == 0 && final(self).pressure_critical_count == 0
                })
            }),
    {
        self.stats.increment_checks();
        let _ = self.check_kesl(&snaps.kesl);
        if self.node_enabled {
            let _ = self.check_node_processes(&snaps.node);
        }
        if self.snap_enabled {
            let _ = self.check_snap_processes(&snaps.snap);
        }
        if self.firefox_enabled {
            let _ = self.check_firefox_processes(&snaps.firefox);
        }
        if self.brave_enabled {
            let _ = self.check_brave_processes(&snaps.brave);
        }
        if self.telegram_enabled {
            let _ = self.check_telegram_processes(&snaps.telegram);
        }
        if self.memory_pressure_enabled {
            let due = snaps.now >= self.pressure_last_check && snaps.now
                - self.pressure_last_check >= self.pressure_check_interval_secs;
            if due {
                if let Some(p) = &snaps.pressure {
                    let _ = self.check_memory_pressure(
                        p,
                        &snaps.firefox,
                        &snaps.brave,
                        &snaps.telegram,
                        &snaps.nvim,
                    );
                }
                self.pressure_last_check = snaps.now;
            }
        }
        Ok(())
    }

    /// Build and initialise the cgroup manager when the configuration
    /// enables it: on success a manager over exactly this configuration
    /// is held, with its slice materialised.
    pub fn initialize_cgroups(&mut self, config: CgroupConfig) -> (r: Result<(), Error>)
        requires
            monitor_wf(*old(self)),
        ensures
            monitor_wf(*final(self)),
            (ResourceMonitor { cgroup_manager: old(self).cgroup_manager, ..*final(self) })
                == *old(self),
            !config.enabled ==> *final(self) == *old(self) && r is Ok,
            r is Ok && config.enabled ==> (final(self).cgroup_manager matches Some(g) && {
                &&& g.config == config
                &&& g.root_created
                &&& g.inv()
                &&& !(config.strategy is Dynamic) ==> g.cgroups@.len()
                    == config.static_groups@.len()
            }),
            r is Err ==> final(self).cgroup_manager == old(self).cgroup_manager,
            r matches Err(e) ==> e is Other,
    {
        if !config.enabled {
            return Ok(());
        }
        let mut manager = match CgroupManager::new(config) {
            Ok(m) => m,
            Err(e) => {
                return Err(Error::Other(e.message()));
            },
        };
        if let Err(e) = manager.initialize() {
            return Err(Error::Other(e.message()));
        }
        self.cgroup_manager = Some(manager);
        Ok(())
    }

    /// Dismantle the cgroup manager's slice on shutdown: with the
    /// cleanup policy on, the held manager ends with no groups and no
    /// slice.
    pub fn cleanup_cgroups(&mut self) -> (r: Result<(), Error>)
        requires
            monitor_wf(*old(self)),
        ensures
            r is Ok,
            monitor_wf(*final(self)),
            (ResourceMonitor { cgroup_manager: old(self).cgroup_manager, ..*final(self) })
                == *old(self),
            (old(self).cgroup_manager is None) ==> *final(self) == *old(self),
            old(self).cgroup_manager matches Some(g) ==> (final(self).cgroup_manager matches Some(
                g2,
            ) && g2.config == g.config && (g.config.auto_cleanup_on_stop ==> g2.cgroups@.len()
                == 0 && !g2.root_created)),
    {
        let mut slot: Option<CgroupManager> = None;
        core::mem::swap(&mut slot, &mut self.cgroup_manager);
        if let Some(mut m) = slot {
            let _ = m.on_service_stop();
            self.cgroup_manager = Some(m);
        }
        Ok(())
    }
}

/// Every process id of a snapshot, in order.
fn all_pids(ps: &Vec<ProcessInfo>) -> (r: Vec<u32>)
    ensures
        r@ == pid_seq(ps@),
{
    let mut out: Vec<u32> = Vec::new();
    let mut i: usize = 0;
    while i < ps.len()
        invariant
            i <= ps@.len(),
            out@.len() == i,
            forall|j: int| 0 <= j < i ==> out@[j] == (#[trigger] ps@[j]).pid,
        decreases ps@.len() - i,
    {
        let pid = ps[i].pid;
        out.push(pid);
        i = i + 1;
    }
    proof {
        assert(out@ =~= pid_seq(ps@));
    }
    out
}

/// Freeze each listed process, best effort.
fn freeze_list(pids: &Vec<u32>) {
    let mut i: usize = 0;
    while i < pids.len()
        decreases pids@.len() - i,
    {
        let _ = ProcessExecutor::freeze_process(pids[i]);
        i = i + 1;
    }
}

/// Resume each listed process, best effort.
fn unfreeze_list(pids: &Vec<u32>) {
    let mut i: usize = 0;
    while i < pids.len()
        decreases pids@.len() - i,
    {
        let _ = ProcessExecutor::unfreeze_process(pids[i]);
        i = i + 1;
    }
}

} // verus!
