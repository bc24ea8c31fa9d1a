//! The cgroup lifecycle manager.
//!
//! The manager owns the set of managed groups and decides every
//! filesystem operation under its root slice; the host drains the
//! pending operations and applies them in order. A ghost journal of
//! everything ever emitted ties the directories the host was asked to
//! materialise to the entities the manager holds: no directory without
//! its entity, and none missing.

use vstd::prelude::*;
use vstd::string::StringExecFns;

use crate::errors::CgroupError;
use crate::executor::ProcessExecutor;
use crate::num::{dec_str, u64_to_string};
use super::controller::{cpu_max_text, CpuController, FileWrite, MemoryController};
use super::types::{
    effective_limits, limits_valid, Cgroup, CgroupConfig, CgroupStrategy, CgroupType,
    HealthStatus, ResourceLimits, StaticCgroupConfig,
};

verus! {

/// One filesystem operation the host is asked to perform, in order.
#[derive(Debug, Clone, PartialEq, Eq)]
pub enum FsOp {
    /// Create this directory; existing is fine.
    CreateDir(String),
    /// Remove this directory.
    RemoveDir(String),
    /// Write these exact contents to this file.
    WriteFile(String, String),
}

/// A filesystem operation at the specification level.
pub enum SpecOp {
    CreateDir(Seq<char>),
    RemoveDir(Seq<char>),
    WriteFile(Seq<char>, Seq<char>),
}

impl View for FsOp {
    type V = SpecOp;

    open spec fn view(&self) -> SpecOp {
        match self {
            FsOp::CreateDir(p) => SpecOp::CreateDir(p@),
            FsOp::RemoveDir(p) => SpecOp::RemoveDir(p@),
            FsOp::WriteFile(p, c) => SpecOp::WriteFile(p@, c@),
        }
    }
}

/// The set of directories that exist after the host has applied the
/// operations, starting from none.
pub open spec fn dirs_after(ops: Seq<SpecOp>) -> Set<Seq<char>>
    decreases ops.len(),
{
    if ops.len() == 0 {
        Set::empty()
    } else {
        let d = dirs_after(ops.drop_last());
        match ops.last() {
            SpecOp::CreateDir(p) => d.insert(p),
            SpecOp::RemoveDir(p) => d.remove(p),
            SpecOp::WriteFile(_p, _c) => d,
        }
    }
}

/// The file contents after the host has applied the operations: every
/// write sets the whole file.
pub open spec fn files_after(ops: Seq<SpecOp>) -> Map<Seq<char>, Seq<char>>
    decreases ops.len(),
{
    if ops.len() == 0 {
        Map::empty()
    } else {
        let m = files_after(ops.drop_last());
        match ops.last() {
            SpecOp::WriteFile(p, c) => m.insert(p, c),
            SpecOp::CreateDir(_p) => m,
            SpecOp::RemoveDir(_p) => m,
        }
    }
}

/// The directory path of a group under the root.
pub open spec fn group_path(root: Seq<char>, name: Seq<char>) -> Seq<char> {
    root + "/"@ + name
}

/// The directory paths of a sequence of groups.
pub open spec fn group_paths(cs: Seq<Cgroup>) -> Set<Seq<char>> {
    Set::new(|p: Seq<char>| exists|i: int| 0 <= i < cs.len() && (#[trigger] cs[i]).path@ == p)
}

/// Whether some group bears the name.
pub open spec fn has_name(cs: Seq<Cgroup>, n: Seq<char>) -> bool {
    exists|i: int| 0 <= i < cs.len() && (#[trigger] cs[i]).name@ == n
}

/// How many groups are dynamic.
pub open spec fn dynamic_count(cs: Seq<Cgroup>) -> int
    decreases cs.len(),
{
    if cs.len() == 0 {
        0
    } else {
        dynamic_count(cs.drop_last()) + if cs.last().cgroup_type is Dynamic {
            1int
        } else {
            0int
        }
    }
}

/// The limit writes for one group directory, in order: CPU ceiling,
/// hard memory ceiling, soft memory ceiling — each only when set.
pub open spec fn limit_ops(path: Seq<char>, l: ResourceLimits) -> Seq<SpecOp> {
    (match l.cpu_limit_percent {
        Some(c) => seq![SpecOp::WriteFile(path + "/cpu.max"@, cpu_max_text(c))],
        None => Seq::empty(),
    }) + (match l.memory_max {
        Some(m) => seq![SpecOp::WriteFile(path + "/memory.max"@, dec_str(m as nat))],
        None => Seq::empty(),
    }) + (match l.memory_high {
        Some(h) => seq![SpecOp::WriteFile(path + "/memory.high"@, dec_str(h as nat))],
        None => Seq::empty(),
    })
}

/// Limit writes touch files only: they leave the directory set alone.
pub proof fn lemma_dirs_after_writes(base: Seq<SpecOp>, ops: Seq<SpecOp>)
    requires
        forall|i: int| 0 <= i < ops.len() ==> (#[trigger] ops[i]) is WriteFile,
    ensures
        dirs_after(base + ops) == dirs_after(base),
    decreases ops.len(),
{
    if ops.len() == 0 {
        assert(base + ops =~= base);
    } else {
        lemma_dirs_after_writes(base, ops.drop_last());
        let whole = base + ops;
        assert(whole.drop_last() =~= base + ops.drop_last());
        assert(whole.last() == ops.last());
        assert(ops.last() is WriteFile);
        assert(dirs_after(whole) == dirs_after(whole.drop_last()));
    }
}

/// The pending operations of the manager, at the specification level.
pub open spec fn ops_of(v: Seq<FsOp>) -> Seq<SpecOp> {
    v.map_values(|op: FsOp| op@)
}

/// Manages the groups under one root slice: which exist, their limits,
/// and every filesystem operation needed to realise them.
pub struct CgroupManager {
    /// The configuration the manager was built from.
    pub config: CgroupConfig,
    /// The managed groups, names unique.
    pub cgroups: Vec<Cgroup>,
    /// Whether the root slice has been materialised.
    pub root_created: bool,
    /// Operations decided but not yet drained by the host.
    pub pending: Vec<FsOp>,
    /// Everything ever emitted, drained or not.
    pub history: Ghost<Seq<SpecOp>>,
}

impl CgroupManager {
    /// The manager's invariant, and the disk correspondence: a
    /// directory exists under the journal exactly for the root slice,
    /// once materialised, and for each managed group.
    pub open spec fn inv(&self) -> bool {
        &&& forall|i: int|
            0 <= i < self.cgroups@.len() ==> (#[trigger] self.cgroups@[i]).path@ == group_path(
                self.config.root_path@,
                self.cgroups@[i].name@,
            )
        &&& forall|i: int, j: int|
            0 <= i < j < self.cgroups@.len() ==> (#[trigger] self.cgroups@[i]).name@ != (
            #[trigger] self.cgroups@[j]).name@
        &&& dirs_after(self.history@) == if self.root_created {
            group_paths(self.cgroups@).insert(self.config.root_path@)
        } else {
            group_paths(self.cgroups@)
        }
        &&& !self.root_created ==> self.cgroups@.len() == 0
        &&& forall|i: int|
            0 <= i < self.cgroups@.len() ==> (#[trigger] self.cgroups@[i]).path@
                != self.config.root_path@
    }

    /// Build a manager over a configuration; nothing is materialised
    /// yet.
    pub fn new(config: CgroupConfig) -> (r: Result<CgroupManager, CgroupError>)
        ensures
            r matches Ok(m) ==> {
                &&& m.config == config
                &&& m.cgroups@.len() == 0
                &&& !m.root_created
                &&& m.pending@.len() == 0
                &&& m.history@.len() == 0
                &&& m.inv()
            },
            r is Ok,
    {
        let m = CgroupManager {
            config,
            cgroups: Vec::new(),
            root_created: false,
            pending: Vec::new(),
            history: Ghost(Seq::empty()),
        };
        proof {
            assert(group_paths(m.cgroups@) =~= Set::<Seq<char>>::empty());
            assert(dirs_after(m.history@) =~= group_paths(m.cgroups@));
        }
        Ok(m)
    }

    /// Queue one operation.
    fn emit(&mut self, op: FsOp)
        ensures
            final(self).pending@ == old(self).pending@.push(op),
            final(self).history@ == old(self).history@.push(op@),
            final(self).config == old(self).config,
            final(self).cgroups == old(self).cgroups,
            final(self).root_created == old(self).root_created,
    {
        let ghost o = op@;
        proof {
            self.history@ = self.history@.push(o);
        }
        self.pending.push(op);
    }

    /// Hand the queued operations to the host, oldest first, and clear
    /// the queue.
    pub fn take_pending(&mut self) -> (r: Vec<FsOp>)
        ensures
            r == old(self).pending,
            final(self).pending@.len() == 0,
            final(self).config == old(self).config,
            final(self).cgroups == old(self).cgroups,
            final(self).root_created == old(self).root_created,
            final(self).history@ == old(self).history@,
    {
        let mut out: Vec<FsOp> = Vec::new();
        core::mem::swap(&mut out, &mut self.pending);
        out
    }

    /// The absolute path of a group directory.
    fn make_group_path(&self, name: &str) -> (r: String)
        ensures
            r@ == group_path(self.config.root_path@, name@),
    {
        let mut p = String::new();
        p.append(self.config.root_path.as_str());
        p.append("/");
        p.append(name);
        p
    }

    /// Queue the limit writes for one group directory. The caller has
    /// validated the limits.
    fn emit_limit_ops(&mut self, path: &str, limits: &ResourceLimits)
        requires
            limits_valid(*limits),
        ensures
            ops_of(final(self).pending@) == ops_of(old(self).pending@) + limit_ops(
                path@,
                *limits,
            ),
            final(self).history@ == old(self).history@ + limit_ops(path@, *limits),
            final(self).config == old(self).config,
            final(self).cgroups == old(self).cgroups,
            final(self).root_created == old(self).root_created,
    {
        let ghost lops = limit_ops(path@, *limits);
        let ghost cpu_part = match limits.cpu_limit_percent {
            Some(c) => seq![SpecOp::WriteFile(path@ + "/cpu.max"@, cpu_max_text(c))],
            None => Seq::<SpecOp>::empty(),
        };
        let ghost max_part = match limits.memory_max {
            Some(m) => seq![SpecOp::WriteFile(path@ + "/memory.max"@, dec_str(m as nat))],
            None => Seq::<SpecOp>::empty(),
        };
        let ghost high_part = match limits.memory_high {
            Some(h) => seq![SpecOp::WriteFile(path@ + "/memory.high"@, dec_str(h as nat))],
            None => Seq::<SpecOp>::empty(),
        };
        let ghost p0 = ops_of(self.pending@);
        let ghost h0 = self.history@;
        if let Some(cpu) = limits.cpu_limit_percent {
            let w = CpuController::set_quota(cpu);
            let mut f = String::new();
            f.append(path);
            f.append("/");
            f.append(w.file.as_str());
            proof {
                reveal_strlit("cpu.max");
                reveal_strlit("/");
                reveal_strlit("/cpu.max");
                assert(f@ =~= path@ + "/cpu.max"@);
            }
            self.emit(FsOp::WriteFile(f, w.contents));
        }
        proof {
            assert(ops_of(self.pending@) =~~= p0 + cpu_part);
            assert(self.history@ =~~= h0 + cpu_part);
        }
        let ghost p1 = ops_of(self.pending@);
        let ghost h1 = self.history@;
        if let Some(mem_max) = limits.memory_max {
            let w = MemoryController::set_max(mem_max);
            let mut f = String::new();
            f.append(path);
            f.append("/");
            f.append(w.file.as_str());
            proof {
                reveal_strlit("memory.max");
                reveal_strlit("/");
                reveal_strlit("/memory.max");
                assert(f@ =~= path@ + "/memory.max"@);
            }
            self.emit(FsOp::WriteFile(f, w.contents));
        }
        proof {
            assert(ops_of(self.pending@) =~~= p1 + max_part);
            assert(self.history@ =~~= h1 + max_part);
        }
        let ghost p2 = ops_of(self.pending@);
        let ghost h2 = self.history@;
        if let Some(mem_high) = limits.memory_high {
            let w = MemoryController::set_high(mem_high);
            let mut f = String::new();
            f.append(path);
            f.append("/");
            f.append(w.file.as_str());
            proof {
                reveal_strlit("memory.high");
                reveal_strlit("/");
                reveal_strlit("/memory.high");
                assert(f@ =~= path@ + "/memory.high"@);
            }
            self.emit(FsOp::WriteFile(f, w.contents));
        }
        proof {
            assert(ops_of(self.pending@) =~~= p2 + high_part);
            assert(self.history@ =~~= h2 + high_part);
            assert(lops =~~= cpu_part + max_part + high_part);
            assert(ops_of(self.pending@) =~~= p0 + lops);
            assert(self.history@ =~~= h0 + lops);
        }
    }
}

} // verus!

verus! {

impl CgroupManager {
    /// Is there a group with this name?
    fn find_index(&self, name: &str) -> (r: Option<usize>)
        ensures
            match r {
                Some(i) => i < self.cgroups@.len() && self.cgroups@[i as int].name@ == name@,
                None => !has_name(self.cgroups@, name@),
            },
    {
        let mut i: usize = 0;
        while i < self.cgroups.len()
            invariant
                i <= self.cgroups@.len(),
                forall|j: int| 0 <= j < i ==> (#[trigger] self.cgroups@[j]).name@ != name@,
            decreases self.cgroups@.len() - i,
        {
            if crate::text::str_eq(self.cgroups[i].name.as_str(), name) {
                return Some(i);
            }
            i = i + 1;
        }
        None
    }

    /// A borrowed view of the named group.
    pub fn get_cgroup(&self, name: &str) -> (r: Option<&Cgroup>)
        ensures
            match r {
                Some(c) => has_name(self.cgroups@, name@) && c.name@ == name@ && (exists|i: int|
                    0 <= i < self.cgroups@.len() && self.cgroups@[i] == *c),
                None => !has_name(self.cgroups@, name@),
            },
    {
        match self.find_index(name) {
            Some(i) => {
                let c = &self.cgroups[i];
                proof {
                    assert(self.cgroups@[i as int] == *c);
                }
                Some(c)
            },
            None => None,
        }
    }

    /// How many dynamic groups the manager holds.
    pub fn count_dynamic_cgroups(&self) -> (r: usize)
        ensures
            r == dynamic_count(self.cgroups@),
    {
        let mut n: usize = 0;
        let mut i: usize = 0;
        while i < self.cgroups.len()
            invariant
                i <= self.cgroups@.len(),
                n == dynamic_count(self.cgroups@.subrange(0, i as int)),
                n <= i,
            decreases self.cgroups@.len() - i,
        {
            proof {
                let t = self.cgroups@.subrange(0, i + 1);
                assert(t.drop_last() =~= self.cgroups@.subrange(0, i as int));
                assert(t.last() == self.cgroups@[i as int]);
            }
            if matches!(self.cgroups[i].cgroup_type, CgroupType::Dynamic) {
                n = n + 1;
            }
            i = i + 1;
        }
        proof {
            assert(self.cgroups@.subrange(0, self.cgroups@.len() as int) =~= self.cgroups@);
        }
        n
    }

    /// Create a runtime group: refused when the name is taken or the
    /// dynamic cap is reached; otherwise its directory is queued and
    /// the group is registered.
    pub fn create_cgroup(&mut self, name: &str) -> (r: Result<Cgroup, CgroupError>)
        requires
            old(self).inv(),
            old(self).root_created,
        ensures
            final(self).inv(),
            final(self).config == old(self).config,
            final(self).root_created,
            has_name(old(self).cgroups@, name@) ==> (r matches Err(e) && e is AlreadyExists
                && *final(self) == *old(self)),
            !has_name(old(self).cgroups@, name@) && dynamic_count(old(self).cgroups@)
                >= old(self).config.dynamic_settings.max_dynamic_cgroups ==> (r matches Err(e)
                && e is MaxCgroupsReached && *final(self) == *old(self)),
            !has_name(old(self).cgroups@, name@) && dynamic_count(old(self).cgroups@)
                < old(self).config.dynamic_settings.max_dynamic_cgroups ==> (r matches Ok(c) && {
                &&& c.name@ == name@
                &&& c.path@ == group_path(old(self).config.root_path@, name@)
                &&& c.cgroup_type is Dynamic
                &&& final(self).cgroups@.len() == old(self).cgroups@.len() + 1
                &&& final(self).cgroups@.drop_last() == old(self).cgroups@
                &&& final(self).cgroups@.last().name@ == name@
                &&& final(self).cgroups@.last().path@ == c.path@
                &&& final(self).cgroups@.last().cgroup_type is Dynamic
                &&& final(self).cgroups@.last().pids@.len() == 0
                &&& ops_of(final(self).pending@) == ops_of(old(self).pending@).push(
                    SpecOp::CreateDir(c.path@),
                )
            }),
    {
        if let Some(_i) = self.find_index(name) {
            return Err(CgroupError::AlreadyExists(name.to_owned()));
        }
        let dyn_count = self.count_dynamic_cgroups();
        if dyn_count >= self.config.dynamic_settings.max_dynamic_cgroups {
            return Err(CgroupError::MaxCgroupsReached(
                self.config.dynamic_settings.max_dynamic_cgroups,
            ));
        }
        let path = self.make_group_path(name);
        let path_copy = path.clone();
        let entity = Cgroup::new(name.to_owned(), path, CgroupType::Dynamic);
        let returned = Cgroup::new(name.to_owned(), path_copy, CgroupType::Dynamic);
        let ghost h0 = self.history@;
        self.emit(FsOp::CreateDir(entity.path.clone()));
        let ghost pre = self.cgroups@;
        self.cgroups.push(entity);
        proof {
            lemma_group_path_injective(self.config.root_path@);
            assert(self.cgroups@.drop_last() =~= pre);
            lemma_group_paths_push(pre, self.cgroups@.last());
            assert(self.history@.drop_last() =~= h0);
            assert(dirs_after(self.history@) == dirs_after(h0).insert(
                group_path(self.config.root_path@, name@),
            ));
            assert(dirs_after(self.history@) =~= if self.root_created {
                group_paths(self.cgroups@).insert(self.config.root_path@)
            } else {
                group_paths(self.cgroups@)
            });
            assert(ops_of(self.pending@) =~~= ops_of(old(self).pending@).push(
                SpecOp::CreateDir(group_path(old(self).config.root_path@, name@)),
            ));
        }
        Ok(returned)
    }

    /// Validate and queue the limit writes of a group.
    pub fn apply_limits(&mut self, cgroup: &Cgroup) -> (r: Result<(), CgroupError>)
        requires
            old(self).inv(),
        ensures
            final(self).inv(),
            final(self).config == old(self).config,
            final(self).cgroups == old(self).cgroups,
            final(self).root_created == old(self).root_created,
            r is Ok <==> limits_valid(cgroup.limits),
            r matches Err(e) ==> e is InvalidLimit && *final(self) == *old(self),
            r is Ok ==> ops_of(final(self).pending@) == ops_of(old(self).pending@) + limit_ops(
                cgroup.path@,
                cgroup.limits,
            ),
    {
        if let Err(e) = cgroup.limits.validate() {
            return Err(e);
        }
        let ghost h0 = self.history@;
        self.emit_limit_ops(cgroup.path.as_str(), &cgroup.limits);
        proof {
            lemma_limit_ops_are_writes(cgroup.path@, cgroup.limits);
            lemma_dirs_after_writes(h0, limit_ops(cgroup.path@, cgroup.limits));
        }
        Ok(())
    }

    /// Queue the move of a live process into a group: its id is
    /// appended to the group's `cgroup.procs`.
    pub fn assign_process(&mut self, cgroup: &Cgroup, pid: u32) -> (r: Result<(), CgroupError>)
        requires
            old(self).inv(),
        ensures
            final(self).inv(),
            final(self).config == old(self).config,
            final(self).cgroups == old(self).cgroups,
            final(self).root_created == old(self).root_created,
            r matches Err(e) ==> e is ProcessNotFound && *final(self) == *old(self),
            r is Ok ==> ops_of(final(self).pending@) == ops_of(old(self).pending@).push(
                SpecOp::WriteFile(cgroup.path@ + "/cgroup.procs"@, dec_str(pid as nat)),
            ),
    {
        if !super::utils::process_exists(pid) {
            return Err(CgroupError::ProcessNotFound(pid));
        }
        let mut f = String::new();
        f.append(cgroup.path.as_str());
        f.append("/");
        f.append("cgroup.procs");
        let contents = u64_to_string(pid as u64);
        proof {
            reveal_strlit("/");
            reveal_strlit("cgroup.procs");
            reveal_strlit("/cgroup.procs");
            assert(f@ =~= cgroup.path@ + "/cgroup.procs"@);
        }
        let ghost h0 = self.history@;
        self.emit(FsOp::WriteFile(f, contents));
        proof {
            assert(ops_of(self.pending@) =~~= ops_of(old(self).pending@).push(
                SpecOp::WriteFile(cgroup.path@ + "/cgroup.procs"@, dec_str(pid as nat)),
            ));
            assert(self.history@.drop_last() =~= h0);
            assert(dirs_after(self.history@) == dirs_after(h0));
        }
        Ok(())
    }

    /// Remove a group: its known processes are queued back to the host
    /// root hierarchy, its directory removal is queued, and the entity
    /// is dropped.
    pub fn remove_cgroup(&mut self, name: &str) -> (r: Result<(), CgroupError>)
        requires
            old(self).inv(),
        ensures
            final(self).inv(),
            final(self).config == old(self).config,
            final(self).root_created == old(self).root_created,
            !has_name(old(self).cgroups@, name@) ==> (r matches Err(e) && e is NotFound
                && *final(self) == *old(self)),
            has_name(old(self).cgroups@, name@) ==> r is Ok && (exists|i: int|
                0 <= i < old(self).cgroups@.len() && (#[trigger] old(self).cgroups@[i]).name@
                    == name@ && final(self).cgroups@ == old(self).cgroups@.remove(i) && ops_of(
                    final(self).pending@,
                ) == ops_of(old(self).pending@) + restore_group_ops(
                    old(self).cgroups@[i].pids@,
                ).push(SpecOp::RemoveDir(old(self).cgroups@[i].path@))),
    {
        let i = match self.find_index(name) {
            Some(i) => i,
            None => {
                return Err(CgroupError::NotFound(name.to_owned()));
            },
        };
        let entity = self.cgroups.remove(i);
        let ghost pre = old(self).cgroups@;
        let ghost p0 = ops_of(old(self).pending@);
        let mut k: usize = 0;
        while k < entity.pids.len()
            invariant
                self.config == old(self).config,
                self.cgroups@ == pre.remove(i as int),
                self.root_created == old(self).root_created,
                dirs_after(self.history@) == dirs_after(old(self).history@),
                k <= entity.pids@.len(),
                p0 == ops_of(old(self).pending@),
                ops_of(self.pending@) == p0 + restore_group_ops(
                    entity.pids@.subrange(0, k as int),
                ),
            decreases entity.pids@.len() - k,
        {
            let ghost h0 = self.history@;
            let ghost pb = self.pending@;
            let pid = entity.pids[k];
            let contents = u64_to_string(pid as u64);
            self.emit(FsOp::WriteFile("/sys/fs/cgroup/cgroup.procs".to_owned(), contents));
            proof {
                assert(self.history@.drop_last() =~= h0);
                let t = entity.pids@.subrange(0, k + 1);
                assert(t.drop_last() =~= entity.pids@.subrange(0, k as int));
                assert(t.last() == entity.pids@[k as int]);
                let w = SpecOp::WriteFile(
                    "/sys/fs/cgroup/cgroup.procs"@,
                    dec_str(pid as nat),
                );
                assert(restore_group_ops(t) == restore_group_ops(t.drop_last()).push(w));
                assert(ops_of(self.pending@) =~~= ops_of(pb).push(w)) by {
                    assert(forall|k2: int| 0 <= k2 < pb.len() ==> self.pending@[k2] == pb[k2]);
                    assert(self.pending@[pb.len() as int]@ == w);
                }
                assert(p0 + restore_group_ops(t) =~~= (p0 + restore_group_ops(
                    t.drop_last(),
                )).push(w));
                assert(ops_of(self.pending@) == p0 + restore_group_ops(t));
            }
            k = k + 1;
        }
        let ghost h1 = self.history@;
        let ghost pb2 = self.pending@;
        self.emit(FsOp::RemoveDir(entity.path.clone()));
        proof {
            assert(entity.pids@.subrange(0, entity.pids@.len() as int) =~= entity.pids@);
            let w = SpecOp::RemoveDir(entity.path@);
            assert(ops_of(self.pending@) =~~= ops_of(pb2).push(w)) by {
                assert(forall|k2: int| 0 <= k2 < pb2.len() ==> self.pending@[k2] == pb2[k2]);
                assert(self.pending@[pb2.len() as int]@ == w);
            }
            assert(ops_of(self.pending@) =~~= p0 + restore_group_ops(entity.pids@).push(w));
            assert(self.history@.drop_last() =~= h1);
            assert(dirs_after(self.history@) == dirs_after(h1).remove(entity.path@));
            lemma_group_path_injective(self.config.root_path@);
            assert(old(self).cgroups@[i as int].name@ == name@);
            assert(entity == old(self).cgroups@[i as int]);
            assert(group_paths(self.cgroups@) =~= group_paths(pre).remove(entity.path@)) by {
                assert(forall|j: int|
                    0 <= j < self.cgroups@.len() ==> #[trigger] self.cgroups@[j] == if j < i {
                        pre[j]
                    } else {
                        pre[j + 1]
                    });
                assert forall|p: Seq<char>|
                    group_paths(pre).remove(entity.path@).contains(p) implies group_paths(
                    self.cgroups@,
                ).contains(p) by {
                    let j = choose|j: int| 0 <= j < pre.len() && (#[trigger] pre[j]).path@ == p;
                    assert(pre[j].name@ != entity.name@);
                    if j < i {
                        assert(self.cgroups@[j].path@ == p);
                    } else {
                        assert(j > i);
                        assert(self.cgroups@[j - 1].path@ == p);
                    }
                }
            }
            assert(dirs_after(self.history@) =~= if self.root_created {
                group_paths(self.cgroups@).insert(self.config.root_path@)
            } else {
                group_paths(self.cgroups@)
            });
        }
        Ok(())
    }
}

/// Appending a group adds exactly its path to the path set.
pub proof fn lemma_group_paths_push(cs: Seq<Cgroup>, c: Cgroup)
    ensures
        group_paths(cs.push(c)) == group_paths(cs).insert(c.path@),
{
    let whole = cs.push(c);
    assert forall|p: Seq<char>| group_paths(whole).contains(p) implies group_paths(cs).insert(
        c.path@,
    ).contains(p) by {
        let j = choose|j: int| 0 <= j < whole.len() && (#[trigger] whole[j]).path@ == p;
        if j < cs.len() {
            assert(cs[j].path@ == p);
        } else {
            assert(p == c.path@);
        }
    }
    assert forall|p: Seq<char>| group_paths(cs).insert(c.path@).contains(p) implies group_paths(
        whole,
    ).contains(p) by {
        if p == c.path@ {
            assert(whole[cs.len() as int].path@ == p);
        } else {
            let j = choose|j: int| 0 <= j < cs.len() && (#[trigger] cs[j]).path@ == p;
            assert(whole[j].path@ == p);
        }
    }
    assert(group_paths(whole) =~= group_paths(cs).insert(c.path@));
}

/// Distinct names give distinct paths under one root, and no group path
/// equals the root itself.
pub proof fn lemma_group_path_injective(root: Seq<char>)
    ensures
        forall|a: Seq<char>, b: Seq<char>|
            group_path(root, a) == group_path(root, b) ==> a == b,
        forall|a: Seq<char>| #[trigger] group_path(root, a) != root,
{
    reveal_strlit("/");
    assert forall|a: Seq<char>, b: Seq<char>|
        group_path(root, a) == group_path(root, b) implies a == b by {
        let pa = group_path(root, a);
        let pb = group_path(root, b);
        assert(pa.len() == root.len() + 1 + a.len());
        assert(pb.len() == root.len() + 1 + b.len());
        assert(a.len() == b.len());
        assert(forall|m: int| 0 <= m < a.len() ==> a[m] == pa[root.len() + 1 + m]);
        assert(forall|m: int| 0 <= m < b.len() ==> b[m] == pb[root.len() + 1 + m]);
        assert(a =~= b);
    }
    assert forall|a: Seq<char>| #[trigger] group_path(root, a) != root by {
        reveal_strlit("/");
        assert(group_path(root, a).len() == root.len() + 1 + a.len());
    }
}

/// The limit writes are writes alone.
pub proof fn lemma_limit_ops_are_writes(path: Seq<char>, l: ResourceLimits)
    ensures
        forall|i: int| 0 <= i < limit_ops(path, l).len() ==> (#[trigger] limit_ops(path, l)[i]) is WriteFile,
{
}

/// The writes that return one group's known processes to the host root
/// hierarchy, in list order.
pub open spec fn restore_group_ops(pids: Seq<u32>) -> Seq<SpecOp>
    decreases pids.len(),
{
    if pids.len() == 0 {
        Seq::empty()
    } else {
        restore_group_ops(pids.drop_last()).push(
            SpecOp::WriteFile("/sys/fs/cgroup/cgroup.procs"@, dec_str(pids.last() as nat)),
        )
    }
}

/// The restore writes of a run of groups, group by group in order.
pub open spec fn restore_ops(cs: Seq<Cgroup>) -> Seq<SpecOp>
    decreases cs.len(),
{
    if cs.len() == 0 {
        Seq::empty()
    } else {
        restore_ops(cs.drop_last()) + restore_group_ops(cs.last().pids@)
    }
}

/// The directory removals that drop a run of groups, last first.
pub open spec fn remove_dir_ops(cs: Seq<Cgroup>) -> Seq<SpecOp>
    decreases cs.len(),
{
    if cs.len() == 0 {
        Seq::empty()
    } else {
        seq![SpecOp::RemoveDir(cs.last().path@)] + remove_dir_ops(cs.drop_last())
    }
}

/// `remove_dir_ops` element by element: one removal per group, walking
/// the run backwards.
pub proof fn lemma_remove_dir_ops_index(cs: Seq<Cgroup>)
    ensures
        remove_dir_ops(cs).len() == cs.len(),
        forall|j: int|
            0 <= j < cs.len() ==> #[trigger] remove_dir_ops(cs)[j] == SpecOp::RemoveDir(
                cs[cs.len() - 1 - j].path@,
            ),
    decreases cs.len(),
{
    if cs.len() > 0 {
        lemma_remove_dir_ops_index(cs.drop_last());
        let whole = remove_dir_ops(cs);
        assert(whole[0] == SpecOp::RemoveDir(cs.last().path@));
        assert(forall|j: int|
            1 <= j < cs.len() ==> #[trigger] whole[j] == remove_dir_ops(cs.drop_last())[j - 1]);
    }
}

/// The two opening operations of initialisation: the root directory
/// and the controller enablement.
pub open spec fn init_prefix_ops(root: Seq<char>) -> Seq<SpecOp> {
    seq![
        SpecOp::CreateDir(root),
        SpecOp::WriteFile(root + "/cgroup.subtree_control"@, "+cpu +memory"@),
    ]
}

/// The operations that materialise one static group: its directory,
/// then its limit writes.
pub open spec fn static_group_ops(root: Seq<char>, g: StaticCgroupConfig) -> Seq<SpecOp> {
    seq![SpecOp::CreateDir(group_path(root, g.name@))] + limit_ops(
        group_path(root, g.name@),
        effective_limits(g),
    )
}

/// The operations that materialise a run of static groups, in order.
pub open spec fn static_groups_ops(root: Seq<char>, gs: Seq<StaticCgroupConfig>) -> Seq<SpecOp>
    decreases gs.len(),
{
    if gs.len() == 0 {
        Seq::empty()
    } else {
        static_groups_ops(root, gs.drop_last()) + static_group_ops(root, gs.last())
    }
}

/// The root-slice removal, when it was materialised; nothing
/// otherwise.
pub open spec fn root_removal_ops(root_created: bool, root: Seq<char>) -> Seq<SpecOp> {
    if root_created {
        seq![SpecOp::RemoveDir(root)]
    } else {
        Seq::empty()
    }
}

/// Everything shutdown queues, by the policy flags: the restore
/// writes, then the group removals, then the slice removal.
pub open spec fn shutdown_ops(m: CgroupManager) -> Seq<SpecOp> {
    (if m.config.restore_processes_on_stop {
        restore_ops(m.cgroups@)
    } else {
        Seq::empty()
    }) + (if m.config.auto_cleanup_on_stop {
        remove_dir_ops(m.cgroups@) + root_removal_ops(m.root_created, m.config.root_path@)
    } else {
        Seq::empty()
    })
}

/// The restore writes are writes alone.
pub proof fn lemma_restore_ops_are_writes(cs: Seq<Cgroup>)
    ensures
        forall|i: int| 0 <= i < restore_ops(cs).len() ==> (#[trigger] restore_ops(cs)[i]) is WriteFile,
    decreases cs.len(),
{
    if cs.len() > 0 {
        lemma_restore_ops_are_writes(cs.drop_last());
        lemma_restore_group_ops_are_writes(cs.last().pids@);
    }
}

/// One group's restore writes are writes alone.
pub proof fn lemma_restore_group_ops_are_writes(pids: Seq<u32>)
    ensures
        forall|i: int|
            0 <= i < restore_group_ops(pids).len() ==> (#[trigger] restore_group_ops(pids)[i]) is WriteFile,
    decreases pids.len(),
{
    if pids.len() > 0 {
        lemma_restore_group_ops_are_writes(pids.drop_last());
    }
}

/// Restoring is a no-op once every known process list is empty: no
/// operation at all is queued.
pub proof fn lemma_restore_no_op_when_home(cs: Seq<Cgroup>)
    requires
        forall|i: int| 0 <= i < cs.len() ==> (#[trigger] cs[i]).pids@.len() == 0,
    ensures
        restore_ops(cs) == Seq::<SpecOp>::empty(),
    decreases cs.len(),
{
    if cs.len() > 0 {
        assert(cs.last().pids@.len() == 0);
        lemma_restore_no_op_when_home(cs.drop_last());
        assert(restore_ops(cs) =~= Seq::<SpecOp>::empty());
    }
}

/// Replaying the restore writes leaves the modelled files and
/// directories exactly as one pass leaves them.
pub proof fn lemma_restore_idempotent(base: Seq<SpecOp>, cs: Seq<Cgroup>)
    ensures
        files_after(base + restore_ops(cs) + restore_ops(cs)) == files_after(
            base + restore_ops(cs),
        ),
        dirs_after(base + restore_ops(cs) + restore_ops(cs)) == dirs_after(
            base + restore_ops(cs),
        ),
{
    lemma_restore_ops_are_writes(cs);
    lemma_write_run_idempotent(base, restore_ops(cs));
}

} // verus!

verus! {

impl CgroupManager {
    /// Initialise the slice: queue the root directory and controller
    /// enablement, then materialise every configured static group with
    /// its limits. Nothing is touched when any static group is invalid
    /// or duplicated.
    pub fn initialize(&mut self) -> (r: Result<(), CgroupError>)
        requires
            old(self).inv(),
            !old(self).root_created,
        ensures
            final(self).inv(),
            final(self).config == old(self).config,
            r matches Err(_) ==> *final(self) == *old(self),
            r is Ok ==> final(self).root_created,
            r is Ok && !(old(self).config.strategy is Dynamic) ==> {
                &&& final(self).cgroups@.len() == old(self).config.static_groups@.len()
                &&& forall|i: int|
                    0 <= i < final(self).cgroups@.len() ==> {
                        &&& (#[trigger] final(self).cgroups@[i]).name@ == old(
                            self,
                        ).config.static_groups@[i].name@
                        &&& final(self).cgroups@[i].cgroup_type is Static
                        &&& final(self).cgroups@[i].limits == effective_limits(
                            old(self).config.static_groups@[i],
                        )
                    }
            },
            r is Ok && old(self).config.strategy is Dynamic ==> final(self).cgroups@.len() == 0,
            r is Ok ==> ops_of(final(self).pending@) == ops_of(old(self).pending@)
                + init_prefix_ops(old(self).config.root_path@) + (if old(
                self,
            ).config.strategy is Dynamic {
                Seq::<SpecOp>::empty()
            } else {
                static_groups_ops(old(self).config.root_path@, old(self).config.static_groups@)
            }),
    {
        // First pass: validate every static group without touching anything.
        let mut i: usize = 0;
        while i < self.config.static_groups.len()
            invariant
                self == old(self),
                self.inv(),
                !self.root_created,
                i <= self.config.static_groups@.len(),
                forall|a: int|
                    0 <= a < i ==> mb_fields_sane(#[trigger] self.config.static_groups@[a])
                        && limits_valid(effective_limits(self.config.static_groups@[a])),
                forall|a: int, b: int|
                    0 <= a < b < i ==> (#[trigger] self.config.static_groups@[a]).name@ != (
                    #[trigger] self.config.static_groups@[b]).name@,
            decreases self.config.static_groups@.len() - i,
        {
            let sc = &self.config.static_groups[i];
            if let Some(mm) = sc.memory_max_mb {
                if mm > u64::MAX / 1048576 {
                    return Err(CgroupError::InvalidLimit("memory limit out of range".to_owned()));
                }
            }
            if let Some(mh) = sc.memory_high_mb {
                if mh > u64::MAX / 1048576 {
                    return Err(CgroupError::InvalidLimit("memory limit out of range".to_owned()));
                }
            }
            let limits = sc.get_limits();
            if let Err(e) = limits.validate() {
                return Err(e);
            }
            let mut j: usize = 0;
            while j < i
                invariant
                    self == old(self),
                    self.inv(),
                    !self.root_created,
                    i < self.config.static_groups@.len(),
                    j <= i,
                    forall|a: int|
                        0 <= a < j ==> (#[trigger] self.config.static_groups@[a]).name@
                            != self.config.static_groups@[i as int].name@,
                decreases i - j,
            {
                if crate::text::str_eq(
                    self.config.static_groups[j].name.as_str(),
                    self.config.static_groups[i].name.as_str(),
                ) {
                    return Err(
                        CgroupError::AlreadyExists(self.config.static_groups[i].name.clone()),
                    );
                }
                j = j + 1;
            }
            i = i + 1;
        }
        // Materialise the root slice and enable its controllers.
        let ghost p0 = ops_of(self.pending@);
        let ghost root_view = self.config.root_path@;
        let ghost h0 = self.history@;
        let ghost pb0 = self.pending@;
        self.emit(FsOp::CreateDir(self.config.root_path.clone()));
        self.root_created = true;
        proof {
            assert(self.history@.drop_last() =~= h0);
            assert(dirs_after(self.history@) =~= group_paths(self.cgroups@).insert(
                self.config.root_path@,
            ));
            assert(ops_of(self.pending@) =~~= ops_of(pb0).push(SpecOp::CreateDir(root_view))) by {
                assert(forall|k2: int| 0 <= k2 < pb0.len() ==> self.pending@[k2] == pb0[k2]);
                assert(self.pending@[pb0.len() as int]@ == SpecOp::CreateDir(root_view));
            }
        }
        let mut ctl = String::new();
        ctl.append(self.config.root_path.as_str());
        ctl.append("/cgroup.subtree_control");
        let ghost h1 = self.history@;
        let ghost pb1 = self.pending@;
        self.emit(FsOp::WriteFile(ctl, "+cpu +memory".to_owned()));
        proof {
            assert(self.history@.drop_last() =~= h1);
            let w = SpecOp::WriteFile(root_view + "/cgroup.subtree_control"@, "+cpu +memory"@);
            assert(ops_of(self.pending@) =~~= ops_of(pb1).push(w)) by {
                assert(forall|k2: int| 0 <= k2 < pb1.len() ==> self.pending@[k2] == pb1[k2]);
                assert(self.pending@[pb1.len() as int]@ == w);
            }
            assert(ops_of(self.pending@) =~~= p0 + init_prefix_ops(root_view));
        }
        let ghost p1 = ops_of(self.pending@);
        if matches!(self.config.strategy, CgroupStrategy::Dynamic) {
            proof {
                assert(ops_of(self.pending@) =~= p0 + init_prefix_ops(root_view)
                    + Seq::<SpecOp>::empty());
            }
            return Ok(());
        }
        // Materialise each static group.
        let mut k: usize = 0;
        while k < self.config.static_groups.len()
            invariant
                self.inv(),
                self.config == old(self).config,
                self.root_created,
                k <= self.config.static_groups@.len(),
                self.cgroups@.len() == k,
                forall|a: int|
                    0 <= a < k ==> {
                        &&& (#[trigger] self.cgroups@[a]).name@
                            == self.config.static_groups@[a].name@
                        &&& self.cgroups@[a].cgroup_type is Static
                        &&& self.cgroups@[a].limits == effective_limits(
                            self.config.static_groups@[a],
                        )
                    },
                forall|a: int|
                    0 <= a < self.config.static_groups@.len()
                        ==> mb_fields_sane(#[trigger] self.config.static_groups@[a])
                        && limits_valid(effective_limits(self.config.static_groups@[a])),
                forall|a: int, b: int|
                    0 <= a < b < self.config.static_groups@.len() ==> (
                    #[trigger] self.config.static_groups@[a]).name@ != (
                    #[trigger] self.config.static_groups@[b]).name@,
                p1 == p0 + init_prefix_ops(root_view),
                root_view == self.config.root_path@,
                ops_of(self.pending@) == p1 + static_groups_ops(
                    root_view,
                    self.config.static_groups@.subrange(0, k as int),
                ),
            decreases self.config.static_groups@.len() - k,
        {
            let name = self.config.static_groups[k].name.clone();
            let limits = self.config.static_groups[k].get_limits();
            let path = self.make_group_path(name.as_str());
            let ghost hk = self.history@;
            let ghost pbk = self.pending@;
            let ghost done = static_groups_ops(
                root_view,
                self.config.static_groups@.subrange(0, k as int),
            );
            self.emit(FsOp::CreateDir(path.clone()));
            proof {
                assert(self.history@.drop_last() =~= hk);
                let w = SpecOp::CreateDir(group_path(root_view, name@));
                assert(ops_of(self.pending@) =~~= ops_of(pbk).push(w)) by {
                    assert(forall|k2: int| 0 <= k2 < pbk.len() ==> self.pending@[k2] == pbk[k2]);
                    assert(self.pending@[pbk.len() as int]@ == w);
                }
                assert(ops_of(self.pending@) =~~= p1 + done + seq![w]);
            }
            let ghost hw = self.history@;
            let ghost pmid = ops_of(self.pending@);
            self.emit_limit_ops(path.as_str(), &limits);
            proof {
                lemma_limit_ops_are_writes(path@, limits);
                lemma_dirs_after_writes(hw, limit_ops(path@, limits));
                let g = self.config.static_groups@[k as int];
                assert(limits == effective_limits(g));
                assert(name@ == g.name@);
                assert(ops_of(self.pending@) =~~= pmid + limit_ops(
                    group_path(root_view, g.name@),
                    effective_limits(g),
                ));
                let t = self.config.static_groups@.subrange(0, k + 1);
                assert(t.drop_last() =~= self.config.static_groups@.subrange(0, k as int));
                assert(t.last() == g);
                assert(static_groups_ops(root_view, t) == done + static_group_ops(root_view, g));
                assert(ops_of(self.pending@) =~~= p1 + static_groups_ops(root_view, t));
            }
            let mut entity = Cgroup::new(name, path, CgroupType::Static);
            entity.limits = limits;
            let ghost pre = self.cgroups@;
            self.cgroups.push(entity);
            proof {
                assert(self.cgroups@.drop_last() =~= pre);
                lemma_group_paths_push(pre, self.cgroups@.last());
                lemma_group_path_injective(self.config.root_path@);
                assert(dirs_after(self.history@) =~= group_paths(self.cgroups@).insert(
                    self.config.root_path@,
                ));
            }
            k = k + 1;
        }
        proof {
            assert(self.config.static_groups@.subrange(
                0,
                self.config.static_groups@.len() as int,
            ) =~= self.config.static_groups@);
        }
        Ok(())
    }

    /// Queue the return of every known process to the host root
    /// hierarchy, one write per listed id in order; the groups stay.
    /// With every process list empty, nothing at all is queued.
    pub fn restore_all_processes(&mut self) -> (r: Result<(), CgroupError>)
        requires
            old(self).inv(),
        ensures
            final(self).inv(),
            r is Ok,
            final(self).config == old(self).config,
            final(self).cgroups == old(self).cgroups,
            final(self).root_created == old(self).root_created,
            ops_of(final(self).pending@) == ops_of(old(self).pending@) + restore_ops(
                old(self).cgroups@,
            ),
            final(self).history@ == old(self).history@ + restore_ops(old(self).cgroups@),
    {
        let ghost p0 = ops_of(self.pending@);
        let ghost g0 = self.history@;
        let mut i: usize = 0;
        while i < self.cgroups.len()
            invariant
                self.inv(),
                self.config == old(self).config,
                self.cgroups == old(self).cgroups,
                self.root_created == old(self).root_created,
                i <= self.cgroups@.len(),
                p0 == ops_of(old(self).pending@),
                g0 == old(self).history@,
                ops_of(self.pending@) == p0 + restore_ops(self.cgroups@.subrange(0, i as int)),
                self.history@ == g0 + restore_ops(self.cgroups@.subrange(0, i as int)),
            decreases self.cgroups@.len() - i,
        {
            let ghost done = restore_ops(self.cgroups@.subrange(0, i as int));
            let mut k: usize = 0;
            let plen = self.cgroups[i].pids.len();
            while k < plen
                invariant
                    self.inv(),
                    self.config == old(self).config,
                    self.cgroups == old(self).cgroups,
                    self.root_created == old(self).root_created,
                    i < self.cgroups@.len(),
                    plen == self.cgroups@[i as int].pids@.len(),
                    k <= plen,
                    done == restore_ops(self.cgroups@.subrange(0, i as int)),
                    p0 == ops_of(old(self).pending@),
                    g0 == old(self).history@,
                    ops_of(self.pending@) == p0 + done + restore_group_ops(
                        self.cgroups@[i as int].pids@.subrange(0, k as int),
                    ),
                    self.history@ == g0 + done + restore_group_ops(
                        self.cgroups@[i as int].pids@.subrange(0, k as int),
                    ),
                decreases plen - k,
            {
                let pid = self.cgroups[i].pids[k];
                let contents = u64_to_string(pid as u64);
                let ghost hb = self.history@;
                let ghost pb = self.pending@;
                self.emit(FsOp::WriteFile("/sys/fs/cgroup/cgroup.procs".to_owned(), contents));
                proof {
                    assert(self.history@.drop_last() =~= hb);
                    assert(dirs_after(self.history@) == dirs_after(hb));
                    let ps = self.cgroups@[i as int].pids@;
                    let t = ps.subrange(0, k + 1);
                    assert(t.drop_last() =~= ps.subrange(0, k as int));
                    assert(t.last() == ps[k as int]);
                    let w = SpecOp::WriteFile(
                        "/sys/fs/cgroup/cgroup.procs"@,
                        dec_str(pid as nat),
                    );
                    assert(restore_group_ops(t) == restore_group_ops(t.drop_last()).push(w));
                    assert(ops_of(self.pending@) =~~= ops_of(pb).push(w)) by {
                        assert(forall|j: int| 0 <= j < pb.len() ==> self.pending@[j] == pb[j]);
                        assert(self.pending@[pb.len() as int]@ == w);
                    }
                    assert(p0 + done + restore_group_ops(t) =~~= (p0 + done + restore_group_ops(
                        t.drop_last(),
                    )).push(w));
                    assert(g0 + done + restore_group_ops(t) =~~= (g0 + done + restore_group_ops(
                        t.drop_last(),
                    )).push(w));
                    assert(ops_of(self.pending@) == p0 + done + restore_group_ops(t));
                    assert(self.history@ =~~= (g0 + done + restore_group_ops(t.drop_last())).push(
                        w,
                    ));
                    assert(self.history@ == g0 + done + restore_group_ops(t));
                }
                k = k + 1;
            }
            proof {
                let cs = self.cgroups@;
                let u = cs.subrange(0, i + 1);
                assert(u.drop_last() =~= cs.subrange(0, i as int));
                assert(u.last() == cs[i as int]);
                assert(cs[i as int].pids@.subrange(0, plen as int) =~= cs[i as int].pids@);
                assert(ops_of(self.pending@) =~~= p0 + restore_ops(u));
                assert(self.history@ =~~= g0 + restore_ops(u));
            }
            i = i + 1;
        }
        proof {
            assert(self.cgroups@.subrange(0, self.cgroups@.len() as int) =~= self.cgroups@);
        }
        Ok(())
    }

    /// Queue the removal of every group directory, newest first, and
    /// drop the entities.
    pub fn remove_all_cgroups(&mut self) -> (r: Result<(), CgroupError>)
        requires
            old(self).inv(),
        ensures
            final(self).inv(),
            r is Ok,
            final(self).config == old(self).config,
            final(self).cgroups@.len() == 0,
            final(self).root_created == old(self).root_created,
            ops_of(final(self).pending@) == ops_of(old(self).pending@) + remove_dir_ops(
                old(self).cgroups@,
            ),
            final(self).history@ == old(self).history@ + remove_dir_ops(old(self).cgroups@),
    {
        let ghost all = old(self).cgroups@;
        let ghost p0 = ops_of(self.pending@);
        let ghost g0 = self.history@;
        proof {
            lemma_remove_dir_ops_index(all);
            assert(self.cgroups@ =~= all.subrange(0, self.cgroups@.len() as int));
            assert(p0 + remove_dir_ops(all).subrange(0, 0) =~= p0);
            assert(g0 + remove_dir_ops(all).subrange(0, 0) =~= g0);
        }
        while self.cgroups.len() > 0
            invariant
                self.inv(),
                self.config == old(self).config,
                self.root_created == old(self).root_created,
                p0 == ops_of(old(self).pending@),
                g0 == old(self).history@,
                all == old(self).cgroups@,
                self.cgroups@.len() <= all.len(),
                self.cgroups@ == all.subrange(0, self.cgroups@.len() as int),
                ops_of(self.pending@) == p0 + remove_dir_ops(all).subrange(
                    0,
                    all.len() - self.cgroups@.len(),
                ),
                self.history@ == g0 + remove_dir_ops(all).subrange(
                    0,
                    all.len() - self.cgroups@.len(),
                ),
            decreases self.cgroups@.len(),
        {
            let ghost pre = self.cgroups@;
            let entity = self.cgroups.pop().unwrap();
            let ghost hb = self.history@;
            let ghost pb = self.pending@;
            self.emit(FsOp::RemoveDir(entity.path.clone()));
            proof {
                lemma_remove_dir_ops_index(all);
                let m = pre.len() as int;
                let j = all.len() - m;
                assert(pre.last() == all[m - 1]);
                assert(remove_dir_ops(all)[j] == SpecOp::RemoveDir(all[m - 1].path@));
                let w = SpecOp::RemoveDir(entity.path@);
                assert(w == remove_dir_ops(all)[j]);
                assert(ops_of(self.pending@) =~~= ops_of(pb).push(w)) by {
                    assert(forall|k2: int| 0 <= k2 < pb.len() ==> self.pending@[k2] == pb[k2]);
                    assert(self.pending@[pb.len() as int]@ == w);
                }
                assert(remove_dir_ops(all).subrange(0, j + 1) =~= remove_dir_ops(all).subrange(
                    0,
                    j,
                ).push(w));
                assert(p0 + remove_dir_ops(all).subrange(0, j + 1) =~~= (p0 + remove_dir_ops(
                    all,
                ).subrange(0, j)).push(w));
                assert(g0 + remove_dir_ops(all).subrange(0, j + 1) =~~= (g0 + remove_dir_ops(
                    all,
                ).subrange(0, j)).push(w));
                assert(ops_of(self.pending@) == p0 + remove_dir_ops(all).subrange(0, j + 1));
                assert(self.history@ =~~= (g0 + remove_dir_ops(all).subrange(0, j)).push(w));
                assert(self.history@ == g0 + remove_dir_ops(all).subrange(0, j + 1));
                assert(self.cgroups@ =~= all.subrange(0, self.cgroups@.len() as int));
                assert(self.history@.drop_last() =~= hb);
                assert(self.cgroups@ =~= pre.drop_last());
                assert(entity == pre.last());
                lemma_group_path_injective(self.config.root_path@);
                assert(group_paths(self.cgroups@) =~= group_paths(pre).remove(entity.path@)) by {
                    assert forall|p: Seq<char>|
                        group_paths(pre).remove(entity.path@).contains(p) implies group_paths(
                        self.cgroups@,
                    ).contains(p) by {
                        let j = choose|j: int|
                            0 <= j < pre.len() && (#[trigger] pre[j]).path@ == p;
                        assert(pre[j].name@ != entity.name@ || j == pre.len() - 1);
                        assert(j < pre.len() - 1);
                        assert(self.cgroups@[j].path@ == p);
                    }
                }
                assert(dirs_after(self.history@) =~= if self.root_created {
                    group_paths(self.cgroups@).insert(self.config.root_path@)
                } else {
                    group_paths(self.cgroups@)
                });
            }
        }
        proof {
            assert(remove_dir_ops(all).subrange(0, all.len() as int) =~= remove_dir_ops(all));
        }
        Ok(())
    }

    /// Queue the removal of the root slice itself.
    fn cleanup_root_slice(&mut self) -> (r: Result<(), CgroupError>)
        requires
            old(self).inv(),
            old(self).cgroups@.len() == 0,
        ensures
            final(self).inv(),
            r is Ok,
            final(self).config == old(self).config,
            final(self).cgroups@.len() == 0,
            !final(self).root_created,
            ops_of(final(self).pending@) == ops_of(old(self).pending@) + root_removal_ops(
                old(self).root_created,
                old(self).config.root_path@,
            ),
            final(self).history@ == old(self).history@ + root_removal_ops(
                old(self).root_created,
                old(self).config.root_path@,
            ),
    {
        if self.root_created {
            let ghost h0 = self.history@;
            let ghost pb = self.pending@;
            self.emit(FsOp::RemoveDir(self.config.root_path.clone()));
            self.root_created = false;
            proof {
                assert(self.history@.drop_last() =~= h0);
                assert(group_paths(self.cgroups@) =~= Set::<Seq<char>>::empty());
                assert(dirs_after(self.history@) =~= group_paths(self.cgroups@));
                let w = SpecOp::RemoveDir(old(self).config.root_path@);
                assert(ops_of(self.pending@) =~~= ops_of(pb).push(w)) by {
                    assert(forall|k2: int| 0 <= k2 < pb.len() ==> self.pending@[k2] == pb[k2]);
                    assert(self.pending@[pb.len() as int]@ == w);
                }
                assert(ops_of(pb).push(w) =~~= ops_of(pb) + root_removal_ops(
                    true,
                    old(self).config.root_path@,
                ));
                assert(self.history@ =~~= h0 + root_removal_ops(
                    true,
                    old(self).config.root_path@,
                ));
            }
        } else {
            proof {
                assert(ops_of(self.pending@) =~= ops_of(self.pending@) + root_removal_ops(
                    false,
                    old(self).config.root_path@,
                ));
                assert(self.history@ =~= self.history@ + root_removal_ops(
                    false,
                    old(self).config.root_path@,
                ));
            }
        }
        Ok(())
    }

    /// Shutdown: first one write returning each known process to the
    /// host root hierarchy, then the removal of every group directory
    /// and of the slice — each step as the policy flags ask.
    pub fn on_service_stop(&mut self) -> (r: Result<(), CgroupError>)
        requires
            old(self).inv(),
        ensures
            final(self).inv(),
            r is Ok,
            final(self).config == old(self).config,
            old(self).config.auto_cleanup_on_stop ==> final(self).cgroups@.len() == 0
                && !final(self).root_created,
            !old(self).config.auto_cleanup_on_stop ==> final(self).cgroups == old(self).cgroups
                && final(self).root_created == old(self).root_created,
            ops_of(final(self).pending@) == ops_of(old(self).pending@) + shutdown_ops(
                *old(self),
            ),
            final(self).history@ == old(self).history@ + shutdown_ops(*old(self)),
    {
        let ghost pre = *old(self);
        if self.config.restore_processes_on_stop {
            let _ = self.restore_all_processes();
        }
        let ghost restored = if pre.config.restore_processes_on_stop {
            restore_ops(pre.cgroups@)
        } else {
            Seq::<SpecOp>::empty()
        };
        proof {
            assert(ops_of(self.pending@) =~= ops_of(pre.pending@) + restored);
            assert(self.history@ =~= pre.history@ + restored);
        }
        if self.config.auto_cleanup_on_stop {
            let ghost mid_p = ops_of(self.pending@);
            let ghost mid_h = self.history@;
            let _ = self.remove_all_cgroups();
            let _ = self.cleanup_root_slice();
            proof {
                assert(ops_of(self.pending@) =~~= mid_p + (remove_dir_ops(pre.cgroups@)
                    + root_removal_ops(pre.root_created, pre.config.root_path@)));
                assert(self.history@ =~~= mid_h + (remove_dir_ops(pre.cgroups@)
                    + root_removal_ops(pre.root_created, pre.config.root_path@)));
                assert(ops_of(self.pending@) =~~= ops_of(pre.pending@) + shutdown_ops(pre));
                assert(self.history@ =~~= pre.history@ + shutdown_ops(pre));
            }
        } else {
            proof {
                assert(ops_of(self.pending@) =~= ops_of(pre.pending@) + shutdown_ops(pre));
                assert(self.history@ =~= pre.history@ + shutdown_ops(pre));
            }
        }
        Ok(())
    }

    /// Alias for shutdown.
    pub fn cleanup(&mut self) -> (r: Result<(), CgroupError>)
        requires
            old(self).inv(),
        ensures
            final(self).inv(),
            r is Ok,
            final(self).config == old(self).config,
            old(self).config.auto_cleanup_on_stop ==> final(self).cgroups@.len() == 0
                && !final(self).root_created,
            ops_of(final(self).pending@) == ops_of(old(self).pending@) + shutdown_ops(
                *old(self),
            ),
            final(self).history@ == old(self).history@ + shutdown_ops(*old(self)),
    {
        self.on_service_stop()
    }

    /// Whole when the slice is materialised and every configured static
    /// group is held; otherwise the missing pieces.
    pub fn health_check(&self) -> (r: Result<HealthStatus, CgroupError>)
        ensures
            r is Ok,
            r matches Ok(h) ==> ((h is Healthy) <==> (self.root_created && forall|i: int|
                0 <= i < self.config.static_groups@.len() ==> has_name(
                    self.cgroups@,
                    (#[trigger] self.config.static_groups@[i]).name@,
                ))),
    {
        let mut issues: Vec<String> = Vec::new();
        if !self.root_created {
            issues.push("Root cgroup slice missing".to_owned());
        }
        let mut i: usize = 0;
        while i < self.config.static_groups.len()
            invariant
                i <= self.config.static_groups@.len(),
                issues@.len() == 0 ==> (self.root_created && forall|a: int|
                    0 <= a < i ==> has_name(
                        self.cgroups@,
                        (#[trigger] self.config.static_groups@[a]).name@,
                    )),
                (self.root_created && forall|a: int|
                    0 <= a < i ==> has_name(
                        self.cgroups@,
                        (#[trigger] self.config.static_groups@[a]).name@,
                    )) ==> issues@.len() == 0,
            decreases self.config.static_groups@.len() - i,
        {
            if self.find_index(self.config.static_groups[i].name.as_str()).is_none() {
                let mut m = "Static cgroup missing: ".to_owned();
                m.append(self.config.static_groups[i].name.as_str());
                issues.push(m);
            }
            i = i + 1;
        }
        if issues.len() == 0 {
            Ok(HealthStatus::Healthy)
        } else {
            Ok(HealthStatus::Degraded(issues))
        }
    }
}

/// The convenience mebibyte fields fit into bytes.
pub open spec fn mb_fields_sane(c: StaticCgroupConfig) -> bool {
    &&& (c.memory_max_mb matches Some(m) ==> m <= u64::MAX / 1048576)
    &&& (c.memory_high_mb matches Some(m) ==> m <= u64::MAX / 1048576)
}

/// Creating a group and then removing it leaves the prior set of
/// groups, whichever index the removal picks.
pub proof fn lemma_create_remove_round_trip(cs: Seq<Cgroup>, c: Cgroup, i: int)
    requires
        !has_name(cs, c.name@),
        0 <= i < cs.push(c).len(),
        cs.push(c)[i].name@ == c.name@,
    ensures
        cs.push(c).remove(i) == cs,
{
    if i < cs.len() {
        assert(cs[i].name@ == c.name@);
        assert(has_name(cs, c.name@));
    }
    assert(i == cs.len());
    assert(cs.push(c).remove(i) =~= cs);
}

/// What each file holds after a run of operations, as a lookup: the
/// last write wins, earlier state otherwise.
pub proof fn lemma_files_after_concat(base: Seq<SpecOp>, ops: Seq<SpecOp>, k: Seq<char>)
    ensures
        files_after(base + ops).contains_key(k) == if write_keys(ops).contains(k) {
            true
        } else {
            files_after(base).contains_key(k)
        },
        files_after(base + ops).contains_key(k) ==> files_after(base + ops)[k]
            == if write_keys(ops).contains(k) {
            last_write(ops, k)
        } else {
            files_after(base)[k]
        },
    decreases ops.len(),
{
    if ops.len() == 0 {
        assert(base + ops =~= base);
        assert(write_keys(ops) =~= Set::<Seq<char>>::empty());
    } else {
        lemma_files_after_concat(base, ops.drop_last(), k);
        let whole = base + ops;
        assert(whole.drop_last() =~= base + ops.drop_last());
    }
}

/// The files a run of operations writes.
pub open spec fn write_keys(ops: Seq<SpecOp>) -> Set<Seq<char>>
    decreases ops.len(),
{
    if ops.len() == 0 {
        Set::empty()
    } else {
        match ops.last() {
            SpecOp::WriteFile(p, _c) => write_keys(ops.drop_last()).insert(p),
            _ => write_keys(ops.drop_last()),
        }
    }
}

/// The contents of the last write to `k` in a run of operations.
pub open spec fn last_write(ops: Seq<SpecOp>, k: Seq<char>) -> Seq<char>
    decreases ops.len(),
{
    if ops.len() == 0 {
        Seq::empty()
    } else {
        match ops.last() {
            SpecOp::WriteFile(p, c) => if p == k {
                c
            } else {
                last_write(ops.drop_last(), k)
            },
            _ => last_write(ops.drop_last(), k),
        }
    }
}

/// Applying the same limit writes twice leaves exactly the file
/// contents that applying them once leaves.
pub proof fn lemma_apply_limits_idempotent(
    base: Seq<SpecOp>,
    path: Seq<char>,
    l: ResourceLimits,
)
    ensures
        files_after(base + limit_ops(path, l) + limit_ops(path, l)) == files_after(
            base + limit_ops(path, l),
        ),
{
    let ops = limit_ops(path, l);
    let once = base + ops;
    let twice = base + ops + ops;
    assert(twice =~= once + ops);
    assert forall|k: Seq<char>|
        #[trigger] files_after(twice).contains_key(k) == files_after(once).contains_key(k) && (
        files_after(twice).contains_key(k) ==> files_after(twice)[k] == files_after(once)[k]) by {
        lemma_files_after_concat(once, ops, k);
        lemma_files_after_concat(base, ops, k);
    }
    assert(files_after(twice) =~= files_after(once));
}

} // verus!

verus! {

/// A run of writes applied twice leaves the same files and directories
/// as applied once; in particular, returning processes to the root
/// hierarchy is idempotent once they are already there.
pub proof fn lemma_write_run_idempotent(base: Seq<SpecOp>, ops: Seq<SpecOp>)
    requires
        forall|i: int| 0 <= i < ops.len() ==> (#[trigger] ops[i]) is WriteFile,
    ensures
        files_after(base + ops + ops) == files_after(base + ops),
        dirs_after(base + ops + ops) == dirs_after(base + ops),
{
    let once = base + ops;
    let twice = base + ops + ops;
    assert(twice =~= once + ops);
    assert forall|k: Seq<char>|
        #[trigger] files_after(twice).contains_key(k) == files_after(once).contains_key(k) && (
        files_after(twice).contains_key(k) ==> files_after(twice)[k] == files_after(once)[k]) by {
        lemma_files_after_concat(once, ops, k);
        lemma_files_after_concat(base, ops, k);
    }
    assert(files_after(twice) =~= files_after(once));
    lemma_dirs_after_writes(once, ops);
}

} // verus!
