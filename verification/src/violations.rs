//! Per-class violation state machines: the two-tier freeze/kill ladder,
//! the single-tier action counter, the supervised-service tally, and the
//! memory-pressure classifier with its victim ladder.
//!
//! These are the decision cores of the per-class passes: they take the
//! tick's snapshots and mutate only counters, returning what is to be
//! done. The acting parts live with the engine, so every counter
//! transition here is exact whatever the outcome of an action.

use vstd::prelude::*;

use crate::psi::MemoryPressure;
use crate::types::ProcessInfo;

verus! {

// ---------------------------------------------------------------------------
// selections over a snapshot, in snapshot order
// ---------------------------------------------------------------------------

/// Process ids of the snapshot entries with CPU strictly above `thr`,
/// in snapshot order.
pub open spec fn pids_above(ps: Seq<ProcessInfo>, thr: u64) -> Seq<u32>
    decreases ps.len(),
{
    if ps.len() == 0 {
        Seq::empty()
    } else {
        let head = pids_above(ps.drop_last(), thr);
        if ps.last().cpu_centi_percent > thr {
            head.push(ps.last().pid)
        } else {
            head
        }
    }
}

/// Process ids with CPU strictly above `lo` and at most `hi`, in
/// snapshot order.
pub open spec fn pids_between(ps: Seq<ProcessInfo>, lo: u64, hi: u64) -> Seq<u32>
    decreases ps.len(),
{
    if ps.len() == 0 {
        Seq::empty()
    } else {
        let head = pids_between(ps.drop_last(), lo, hi);
        if ps.last().cpu_centi_percent > lo && ps.last().cpu_centi_percent <= hi {
            head.push(ps.last().pid)
        } else {
            head
        }
    }
}

/// Any entry strictly above `thr`?
pub open spec fn any_above(ps: Seq<ProcessInfo>, thr: u64) -> bool {
    exists|i: int| 0 <= i < ps.len() && (#[trigger] ps[i]).cpu_centi_percent > thr
}

/// Any entry strictly above `lo` and at most `hi`?
pub open spec fn any_between(ps: Seq<ProcessInfo>, lo: u64, hi: u64) -> bool {
    exists|i: int|
        0 <= i < ps.len() && (#[trigger] ps[i]).cpu_centi_percent > lo && ps[i].cpu_centi_percent
            <= hi
}

/// `pids_above` is nonempty exactly when some entry is above.
pub proof fn lemma_pids_above_nonempty(ps: Seq<ProcessInfo>, thr: u64)
    ensures
        pids_above(ps, thr).len() > 0 <==> any_above(ps, thr),
    decreases ps.len(),
{
    if ps.len() > 0 {
        lemma_pids_above_nonempty(ps.drop_last(), thr);
        if ps.last().cpu_centi_percent > thr {
            assert(ps[ps.len() - 1].cpu_centi_percent > thr);
        } else {
            assert(any_above(ps.drop_last(), thr) <==> any_above(ps, thr)) by {
                if any_above(ps, thr) {
                    let i = choose|i: int|
                        0 <= i < ps.len() && (#[trigger] ps[i]).cpu_centi_percent > thr;
                    assert(i < ps.len() - 1);
                    assert(ps.drop_last()[i].cpu_centi_percent > thr);
                }
                if any_above(ps.drop_last(), thr) {
                    let i = choose|i: int|
                        0 <= i < ps.drop_last().len() && (#[trigger] ps.drop_last()[i]).cpu_centi_percent
                            > thr;
                    assert(ps[i].cpu_centi_percent > thr);
                }
            }
        }
    }
}

/// `pids_between` is nonempty exactly when some entry lies between.
pub proof fn lemma_pids_between_nonempty(ps: Seq<ProcessInfo>, lo: u64, hi: u64)
    ensures
        pids_between(ps, lo, hi).len() > 0 <==> any_between(ps, lo, hi),
    decreases ps.len(),
{
    if ps.len() > 0 {
        lemma_pids_between_nonempty(ps.drop_last(), lo, hi);
        let last = ps.last();
        if last.cpu_centi_percent > lo && last.cpu_centi_percent <= hi {
            assert(ps[ps.len() - 1].cpu_centi_percent > lo && ps[ps.len() - 1].cpu_centi_percent
                <= hi);
        } else {
            assert(any_between(ps.drop_last(), lo, hi) <==> any_between(ps, lo, hi)) by {
                if any_between(ps, lo, hi) {
                    let i = choose|i: int|
                        0 <= i < ps.len() && (#[trigger] ps[i]).cpu_centi_percent > lo
                            && ps[i].cpu_centi_percent <= hi;
                    assert(i < ps.len() - 1);
                    assert(ps.drop_last()[i] == ps[i]);
                }
                if any_between(ps.drop_last(), lo, hi) {
                    let i = choose|i: int|
                        0 <= i < ps.drop_last().len() && (#[trigger] ps.drop_last()[i]).cpu_centi_percent
                            > lo && ps.drop_last()[i].cpu_centi_percent <= hi;
                    assert(ps[i] == ps.drop_last()[i]);
                }
            }
        }
    }
}

/// Collect the ids above a threshold, in snapshot order.
pub fn collect_above(ps: &Vec<ProcessInfo>, thr: u64) -> (r: Vec<u32>)
    ensures
        r@ == pids_above(ps@, thr),
{
    let mut out: Vec<u32> = Vec::new();
    let mut i: usize = 0;
    while i < ps.len()
        invariant
            i <= ps@.len(),
            out@ == pids_above(ps@.subrange(0, i as int), thr),
        decreases ps@.len() - i,
    {
        proof {
            let t = ps@.subrange(0, i + 1);
            assert(t.drop_last() =~= ps@.subrange(0, i as int));
            assert(t.last() == ps@[i as int]);
        }
        if ps[i].cpu_centi_percent > thr {
            let pid = ps[i].pid;
            out.push(pid);
        }
        i = i + 1;
    }
    proof {
        assert(ps@.subrange(0, ps@.len() as int) =~= ps@);
    }
    out
}

/// Collect the ids between two thresholds, in snapshot order.
pub fn collect_between(ps: &Vec<ProcessInfo>, lo: u64, hi: u64) -> (r: Vec<u32>)
    ensures
        r@ == pids_between(ps@, lo, hi),
{
    let mut out: Vec<u32> = Vec::new();
    let mut i: usize = 0;
    while i < ps.len()
        invariant
            i <= ps@.len(),
            out@ == pids_between(ps@.subrange(0, i as int), lo, hi),
        decreases ps@.len() - i,
    {
        proof {
            let t = ps@.subrange(0, i + 1);
            assert(t.drop_last() =~= ps@.subrange(0, i as int));
            assert(t.last() == ps@[i as int]);
        }
        if ps[i].cpu_centi_percent > lo && ps[i].cpu_centi_percent <= hi {
            let pid = ps[i].pid;
            out.push(pid);
        }
        i = i + 1;
    }
    proof {
        assert(ps@.subrange(0, ps@.len() as int) =~= ps@);
    }
    out
}

// ---------------------------------------------------------------------------
// two-tier freeze/kill machine
// ---------------------------------------------------------------------------

/// Thresholds and caps of a two-tier class. CPU figures are hundredths
/// of a percent; the kill threshold lies strictly above the freeze one.
#[derive(Debug, Clone, Copy, PartialEq, Eq, Structural)]
pub struct TwoTierConfig {
    pub freeze_centi: u64,
    pub kill_centi: u64,
    pub hold_secs: u64,
    pub max_freeze: u32,
    pub max_kill: u32,
}

/// The two counters of a two-tier class.
#[derive(Debug, Clone, Copy, PartialEq, Eq, Structural)]
pub struct TwoTierCounters {
    pub freeze_hits: u32,
    pub kill_hits: u32,
}

impl TwoTierCounters {
    /// Both counters at zero.
    pub fn new() -> (c: Self)
        ensures
            c == (TwoTierCounters { freeze_hits: 0, kill_hits: 0 }),
    {
        TwoTierCounters { freeze_hits: 0, kill_hits: 0 }
    }
}

/// What a two-tier tick decided.
#[derive(Debug, Clone, PartialEq, Eq)]
pub enum TwoTierDecision {
    /// No matching process, or all below the freeze threshold: counters
    /// cleared.
    Idle,
    /// Critical CPU seen; the kill counter was advanced, no action yet.
    KillTally,
    /// The kill counter reached its cap: end these processes, in
    /// snapshot order.
    KillNow(Vec<u32>),
    /// High CPU seen; the freeze counter was advanced, no action yet.
    FreezeTally,
    /// The freeze counter reached its cap: freeze these processes for
    /// the hold, in snapshot order.
    FreezeNow(Vec<u32>),
}

/// One tick of the two-tier machine.
///
/// With `C` the entries strictly above the kill threshold and `H` those
/// strictly above the freeze threshold but at most the kill threshold:
/// an empty snapshot or one with neither clears both counters; `C`
/// nonempty advances the kill counter and clears the freeze counter,
/// acting on `C` and clearing both when the cap is reached; otherwise
/// `H` nonempty advances the freeze counter and clears the kill counter,
/// acting on `H` and clearing the freeze counter at its cap.
pub fn two_tier_step(
    counters: &mut TwoTierCounters,
    cfg: &TwoTierConfig,
    processes: &Vec<ProcessInfo>,
) -> (decision: TwoTierDecision)
    requires
        old(counters).kill_hits < u32::MAX,
        old(counters).freeze_hits < u32::MAX,
    ensures
        ({
            let crit = any_above(processes@, cfg.kill_centi);
            let high = any_between(processes@, cfg.freeze_centi, cfg.kill_centi);
            if crit {
                &&& final(counters).freeze_hits == 0
                &&& if old(counters).kill_hits + 1 >= cfg.max_kill {
                    &&& final(counters).kill_hits == 0
                    &&& decision matches TwoTierDecision::KillNow(v) && v@ == pids_above(
                        processes@,
                        cfg.kill_centi,
                    )
                } else {
                    &&& final(counters).kill_hits == old(counters).kill_hits + 1
                    &&& decision == TwoTierDecision::KillTally
                }
            } else if high {
                &&& final(counters).kill_hits == 0
                &&& if old(counters).freeze_hits + 1 >= cfg.max_freeze {
                    &&& final(counters).freeze_hits == 0
                    &&& decision matches TwoTierDecision::FreezeNow(v) && v@ == pids_between(
                        processes@,
                        cfg.freeze_centi,
                        cfg.kill_centi,
                    )
                } else {
                    &&& final(counters).freeze_hits == old(counters).freeze_hits + 1
                    &&& decision == TwoTierDecision::FreezeTally
                }
            } else {
                &&& final(counters).freeze_hits == 0
                &&& final(counters).kill_hits == 0
                &&& decision == TwoTierDecision::Idle
            }
        }),
{
    let critical = collect_above(processes, cfg.kill_centi);
    let high = collect_between(processes, cfg.freeze_centi, cfg.kill_centi);
    proof {
        lemma_pids_above_nonempty(processes@, cfg.kill_centi);
        lemma_pids_between_nonempty(processes@, cfg.freeze_centi, cfg.kill_centi);
    }
    if critical.len() > 0 {
        counters.freeze_hits = 0;
        if counters.kill_hits + 1 >= cfg.max_kill {
            counters.kill_hits = 0;
            TwoTierDecision::KillNow(critical)
        } else {
            counters.kill_hits = counters.kill_hits + 1;
            TwoTierDecision::KillTally
        }
    } else if high.len() > 0 {
        counters.kill_hits = 0;
        if counters.freeze_hits + 1 >= cfg.max_freeze {
            counters.freeze_hits = 0;
            TwoTierDecision::FreezeNow(high)
        } else {
            counters.freeze_hits = counters.freeze_hits + 1;
            TwoTierDecision::FreezeTally
        }
    } else {
        counters.freeze_hits = 0;
        counters.kill_hits = 0;
        TwoTierDecision::Idle
    }
}

/// Two-tier exclusivity: after any tick, at most one counter is
/// nonzero.
pub proof fn lemma_two_tier_exclusive(
    pre: TwoTierCounters,
    post: TwoTierCounters,
    cfg: TwoTierConfig,
    processes: Seq<ProcessInfo>,
    decision: TwoTierDecision,
)
    requires
        two_tier_rel(pre, post, cfg, processes, decision),
    ensures
        post.freeze_hits == 0 || post.kill_hits == 0,
{
}

/// Post-action reset: when a tier fired, its counter is zero after the
/// tick.
pub proof fn lemma_two_tier_fire_resets(
    pre: TwoTierCounters,
    post: TwoTierCounters,
    cfg: TwoTierConfig,
    processes: Seq<ProcessInfo>,
    decision: TwoTierDecision,
)
    requires
        two_tier_rel(pre, post, cfg, processes, decision),
    ensures
        decision is KillNow ==> post.kill_hits == 0 && post.freeze_hits == 0,
        decision is FreezeNow ==> post.freeze_hits == 0,
{
}

/// The transition relation of `two_tier_step`, for stating laws.
pub open spec fn two_tier_rel(
    pre: TwoTierCounters,
    post: TwoTierCounters,
    cfg: TwoTierConfig,
    processes: Seq<ProcessInfo>,
    decision: TwoTierDecision,
) -> bool {
    let crit = any_above(processes, cfg.kill_centi);
    let high = any_between(processes, cfg.freeze_centi, cfg.kill_centi);
    if crit {
        &&& post.freeze_hits == 0
        &&& if pre.kill_hits + 1 >= cfg.max_kill {
            post.kill_hits == 0 && (decision matches TwoTierDecision::KillNow(v) && v@
                == pids_above(processes, cfg.kill_centi))
        } else {
            post.kill_hits == pre.kill_hits + 1 && decision == TwoTierDecision::KillTally
        }
    } else if high {
        &&& post.kill_hits == 0
        &&& if pre.freeze_hits + 1 >= cfg.max_freeze {
            post.freeze_hits == 0 && (decision matches TwoTierDecision::FreezeNow(v) && v@
                == pids_between(processes, cfg.freeze_centi, cfg.kill_centi))
        } else {
            post.freeze_hits == pre.freeze_hits + 1 && decision == TwoTierDecision::FreezeTally
        }
    } else {
        post.freeze_hits == 0 && post.kill_hits == 0 && decision == TwoTierDecision::Idle
    }
}

/// A reading exactly at the freeze threshold is no violation, and one
/// exactly at the kill threshold counts to the freeze tier.
pub proof fn lemma_two_tier_boundaries(p: ProcessInfo, cfg: TwoTierConfig)
    requires
        cfg.freeze_centi < cfg.kill_centi,
    ensures
        p.cpu_centi_percent == cfg.freeze_centi ==> !any_above(seq![p], cfg.kill_centi)
            && !any_between(seq![p], cfg.freeze_centi, cfg.kill_centi),
        p.cpu_centi_percent == cfg.kill_centi ==> !any_above(seq![p], cfg.kill_centi)
            && any_between(seq![p], cfg.freeze_centi, cfg.kill_centi),
{
    let s = seq![p];
    assert(s[0] == p);
    if p.cpu_centi_percent == cfg.kill_centi {
        assert(s[0].cpu_centi_percent > cfg.freeze_centi && s[0].cpu_centi_percent
            <= cfg.kill_centi);
    }
}

// ---------------------------------------------------------------------------
// single-tier action machine
// ---------------------------------------------------------------------------

/// The remediation of a single-tier class.
#[derive(Debug, Clone, Copy, PartialEq, Eq, Structural)]
pub enum TierAction {
    /// Lower priority to this level.
    Nice(i32),
    /// Stop, hold this many seconds, continue.
    Freeze(u64),
    /// Terminate.
    Kill,
    /// An unrecognised configured action: log and do nothing.
    Unknown,
}

/// What a single-tier tick decided.
#[derive(Debug, Clone, PartialEq, Eq)]
pub enum SingleTierDecision {
    /// Nothing above threshold: counter cleared.
    Idle,
    /// The counter was advanced, no action yet.
    Tally,
    /// The counter reached its cap: apply the action to these ids, in
    /// snapshot order.
    FireNow(Vec<u32>),
}

/// One tick of the single-tier machine: nothing above the threshold
/// clears the counter; otherwise the counter advances, and at its cap
/// the action fires on every offender and the counter clears.
pub fn single_tier_step(
    hits: &mut u32,
    threshold_centi: u64,
    max_violations: u32,
    processes: &Vec<ProcessInfo>,
) -> (decision: SingleTierDecision)
    requires
        *old(hits) < u32::MAX,
    ensures
        ({
            let offending = any_above(processes@, threshold_centi);
            if !offending {
                *final(hits) == 0 && decision == SingleTierDecision::Idle
            } else if *old(hits) + 1 >= max_violations {
                *final(hits) == 0 && (decision matches SingleTierDecision::FireNow(v) && v@
                    == pids_above(processes@, threshold_centi))
            } else {
                *final(hits) == *old(hits) + 1 && decision == SingleTierDecision::Tally
            }
        }),
{
    let offenders = collect_above(processes, threshold_centi);
    proof {
        lemma_pids_above_nonempty(processes@, threshold_centi);
    }
    if offenders.len() == 0 {
        *hits = 0;
        SingleTierDecision::Idle
    } else if *hits + 1 >= max_violations {
        *hits = 0;
        SingleTierDecision::FireNow(offenders)
    } else {
        *hits = *hits + 1;
        SingleTierDecision::Tally
    }
}

// ---------------------------------------------------------------------------
// supervised-service tally
// ---------------------------------------------------------------------------

/// One tick of the supervised-service counters against its thresholds.
/// Each counter advances on its own violation and clears otherwise; a
/// restart is due when either reaches the cap.
pub fn kesl_tally(
    cpu_violations: &mut u32,
    memory_violations: &mut u32,
    cpu_threshold_centi: u64,
    memory_threshold_mb: u64,
    max_violations: u32,
    process: &ProcessInfo,
) -> (restart_due: bool)
    requires
        *old(cpu_violations) < u32::MAX,
        *old(memory_violations) < u32::MAX,
    ensures
        *final(cpu_violations) == if process.cpu_centi_percent > cpu_threshold_centi {
            *old(cpu_violations) + 1
        } else {
            0
        },
        *final(memory_violations) == if process.memory_mb > memory_threshold_mb {
            *old(memory_violations) + 1
        } else {
            0
        },
        restart_due == (*final(cpu_violations) >= max_violations || *final(memory_violations)
            >= max_violations),
{
    if process.cpu_exceeds(cpu_threshold_centi) {
        *cpu_violations = *cpu_violations + 1;
    } else {
        *cpu_violations = 0;
    }
    if process.memory_exceeds(memory_threshold_mb) {
        *memory_violations = *memory_violations + 1;
    } else {
        *memory_violations = 0;
    }
    *cpu_violations >= max_violations || *memory_violations >= max_violations
}

// ---------------------------------------------------------------------------
// memory-pressure classification and victim ladder
// ---------------------------------------------------------------------------

/// The thresholds of the pressure reactor, in hundredths of a percent.
#[derive(Debug, Clone, Copy, PartialEq, Eq, Structural)]
pub struct PressureThresholds {
    pub some_warning: u64,
    pub some_critical: u64,
    pub full_warning: u64,
    pub full_critical: u64,
}

/// Severity of a pressure reading.
#[derive(Debug, Clone, Copy, PartialEq, Eq, Structural)]
pub enum PressureLevel {
    Critical,
    Warning,
    Normal,
}

/// The level of a reading: critical wins over warning, warning over
/// normal.
pub open spec fn pressure_level(p: MemoryPressure, t: PressureThresholds) -> PressureLevel {
    if p.some_avg10 >= t.some_critical || p.full_avg10 >= t.full_critical {
        PressureLevel::Critical
    } else if p.some_avg10 >= t.some_warning || p.full_avg10 >= t.full_warning {
        PressureLevel::Warning
    } else {
        PressureLevel::Normal
    }
}

/// Classify a reading against the thresholds.
pub fn classify_pressure(p: &MemoryPressure, t: &PressureThresholds) -> (r: PressureLevel)
    ensures
        r == pressure_level(*p, *t),
{
    if p.is_critical(t.some_critical, t.full_critical) {
        PressureLevel::Critical
    } else if p.is_warning(t.some_warning, t.full_warning) {
        PressureLevel::Warning
    } else {
        PressureLevel::Normal
    }
}

/// Critical wins over warning: a reading at or above both bands is
/// classified critical.
pub proof fn lemma_critical_wins(p: MemoryPressure, t: PressureThresholds)
    requires
        p.some_avg10 >= t.some_critical || p.full_avg10 >= t.full_critical,
    ensures
        pressure_level(p, t) == PressureLevel::Critical,
{
}

/// One tick of the pressure counters: the counter of the observed level
/// advances; a normal reading clears both.
pub fn pressure_tally(
    warning_count: &mut u32,
    critical_count: &mut u32,
    level: PressureLevel,
) -> (r: PressureLevel)
    requires
        *old(warning_count) < u32::MAX,
        *old(critical_count) < u32::MAX,
    ensures
        r == level,
        level is Critical ==> *final(critical_count) == *old(critical_count) + 1
            && *final(warning_count) == *old(warning_count),
        level is Warning ==> *final(warning_count) == *old(warning_count) + 1
            && *final(critical_count) == *old(critical_count),
        level is Normal ==> *final(warning_count) == 0 && *final(critical_count) == 0,
{
    match level {
        PressureLevel::Critical => {
            *critical_count = *critical_count + 1;
        },
        PressureLevel::Warning => {
            *warning_count = *warning_count + 1;
        },
        PressureLevel::Normal => {
            *warning_count = 0;
            *critical_count = 0;
        },
    }
    level
}

/// A kill candidate: its id and its resident memory.
#[derive(Debug, Clone, Copy, PartialEq, Eq, Structural)]
pub struct Victim {
    pub pid: u32,
    pub memory_kb: u64,
}

/// The candidates of one snapshot, in snapshot order.
pub open spec fn victims_of(ps: Seq<ProcessInfo>) -> Seq<Victim>
    decreases ps.len(),
{
    if ps.len() == 0 {
        Seq::empty()
    } else {
        victims_of(ps.drop_last()).push(
            Victim { pid: ps.last().pid, memory_kb: ps.last().memory_kb },
        )
    }
}

/// The candidates with resident memory strictly above one gibibyte, in
/// snapshot order.
pub open spec fn big_victims_of(ps: Seq<ProcessInfo>) -> Seq<Victim>
    decreases ps.len(),
{
    if ps.len() == 0 {
        Seq::empty()
    } else {
        let head = big_victims_of(ps.drop_last());
        if ps.last().memory_mb > 1024 {
            head.push(Victim { pid: ps.last().pid, memory_kb: ps.last().memory_kb })
        } else {
            head
        }
    }
}

/// The prioritised victim ladder: every Brave process, then every
/// Telegram process, then each editor above one gibibyte, then every
/// Firefox process — each tier in snapshot order.
pub open spec fn victim_ladder(
    brave: Seq<ProcessInfo>,
    telegram: Seq<ProcessInfo>,
    nvim: Seq<ProcessInfo>,
    firefox: Seq<ProcessInfo>,
) -> Seq<Victim> {
    victims_of(brave) + victims_of(telegram) + big_victims_of(nvim) + victims_of(firefox)
}

/// Collect every candidate of a snapshot.
fn collect_victims(ps: &Vec<ProcessInfo>, out: &mut Vec<Victim>)
    ensures
        final(out)@ == old(out)@ + victims_of(ps@),
{
    let mut i: usize = 0;
    while i < ps.len()
        invariant
            i <= ps@.len(),
            out@ == old(out)@ + victims_of(ps@.subrange(0, i as int)),
        decreases ps@.len() - i,
    {
        proof {
            let t = ps@.subrange(0, i + 1);
            assert(t.drop_last() =~= ps@.subrange(0, i as int));
            assert(t.last() == ps@[i as int]);
        }
        let v = Victim { pid: ps[i].pid, memory_kb: ps[i].memory_kb };
        out.push(v);
        i = i + 1;
    }
    proof {
        assert(ps@.subrange(0, ps@.len() as int) =~= ps@);
    }
}

/// Collect the candidates above one gibibyte of a snapshot.
fn collect_big_victims(ps: &Vec<ProcessInfo>, out: &mut Vec<Victim>)
    ensures
        final(out)@ == old(out)@ + big_victims_of(ps@),
{
    let mut i: usize = 0;
    while i < ps.len()
        invariant
            i <= ps@.len(),
            out@ == old(out)@ + big_victims_of(ps@.subrange(0, i as int)),
        decreases ps@.len() - i,
    {
        proof {
            let t = ps@.subrange(0, i + 1);
            assert(t.drop_last() =~= ps@.subrange(0, i as int));
            assert(t.last() == ps@[i as int]);
        }
        if ps[i].memory_mb > 1024 {
            let v = Victim { pid: ps[i].pid, memory_kb: ps[i].memory_kb };
            out.push(v);
        }
        i = i + 1;
    }
    proof {
        assert(ps@.subrange(0, ps@.len() as int) =~= ps@);
    }
}

/// Build the prioritised victim ladder from the four class snapshots.
pub fn select_victims(
    brave: &Vec<ProcessInfo>,
    telegram: &Vec<ProcessInfo>,
    nvim: &Vec<ProcessInfo>,
    firefox: &Vec<ProcessInfo>,
) -> (r: Vec<Victim>)
    ensures
        r@ == victim_ladder(brave@, telegram@, nvim@, firefox@),
{
    let mut out: Vec<Victim> = Vec::new();
    collect_victims(brave, &mut out);
    collect_victims(telegram, &mut out);
    collect_big_victims(nvim, &mut out);
    collect_victims(firefox, &mut out);
    proof {
        assert(out@ =~= victim_ladder(brave@, telegram@, nvim@, firefox@));
    }
    out
}

} // verus!

verus! {

/// The counter transition of one two-tier tick, decision left aside.
pub open spec fn two_tier_counters_rel(
    pre: TwoTierCounters,
    post: TwoTierCounters,
    cfg: TwoTierConfig,
    processes: Seq<ProcessInfo>,
) -> bool {
    let crit = any_above(processes, cfg.kill_centi);
    let high = any_between(processes, cfg.freeze_centi, cfg.kill_centi);
    if crit {
        &&& post.freeze_hits == 0
        &&& post.kill_hits == if pre.kill_hits + 1 >= cfg.max_kill {
            0int
        } else {
            pre.kill_hits + 1
        }
    } else if high {
        &&& post.kill_hits == 0
        &&& post.freeze_hits == if pre.freeze_hits + 1 >= cfg.max_freeze {
            0int
        } else {
            pre.freeze_hits + 1
        }
    } else {
        post.freeze_hits == 0 && post.kill_hits == 0
    }
}

/// The counter transition of one single-tier tick.
pub open spec fn single_tier_counter_rel(
    pre: u32,
    post: u32,
    threshold_centi: u64,
    max_violations: u32,
    processes: Seq<ProcessInfo>,
) -> bool {
    if !any_above(processes, threshold_centi) {
        post == 0
    } else if pre + 1 >= max_violations {
        post == 0
    } else {
        post == pre + 1
    }
}

} // verus!
