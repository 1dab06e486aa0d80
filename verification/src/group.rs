use crate::cfs::CFSQueue;
use crate::cfs::SchedEntity;
use crate::cfs::SchedEntityKind;
use crate::cfs::SchedulerCFS;
use crate::cfs::entity_wf;
use crate::cfs::queue_wf;
use crate::cfs::spec_insert_entity;
use crate::manager::ne_pid;
use crate::manager::remove_pid_value;
use crate::pid::Pid;
use crate::pid_map::PidMap;
use crate::pid_map::pid_map_entries;
use core::mem;
use vstd::prelude::*;

verus! {

/// A hierarchical grouping of scheduling entities, mirroring the
/// process-group hierarchy: the group carries one scheduling entity per
/// CPU, each owning the run queue its members are enqueued on, so that the
/// group competes as one unit in its parent's queue while its members
/// compete with each other inside it.
#[derive(Debug)]
pub struct TaskGroup {
    /// One group entity per CPU, each owning that CPU's member run queue;
    /// drained into the parent's run queues when the group is linked.
    pub se: Vec<SchedEntity>,
    /// The parent group, as a non-owning group id resolved by lookup.
    pub parent_tg: Option<Pid>,
    /// The child groups, by group id.
    pub children: Vec<Pid>,
}

impl TaskGroup {
    /// Every per-CPU entity is a well-formed group entity.
    pub open spec fn wf(&self) -> bool {
        forall|i: int|
            0 <= i < self.se@.len() ==> entity_wf(#[trigger] self.se@[i]) && self.se@[i].kind
                is Group
    }

    /// A fresh group under `ptg`: one group entity per CPU, each owning an
    /// empty member run queue.
    pub fn new(n_cpus: usize, ptg: Option<Pid>) -> (r: Self)
        ensures
            r.se@.len() == n_cpus,
            r.wf(),
            forall|i: int|
                0 <= i < n_cpus ==> (#[trigger] r.se@[i]).virtual_runtime == 0
                    && r.se@[i].priority.data == 100,
            r.parent_tg == ptg,
            r.children@.len() == 0,
    {
        let mut se: Vec<SchedEntity> = Vec::new();
        for i in 0..n_cpus
            invariant
                se@.len() == i,
                forall|j: int|
                    0 <= j < i ==> entity_wf(#[trigger] se@[j]) && se@[j].kind is Group
                        && se@[j].virtual_runtime == 0 && se@[j].priority.data == 100,
        {
            se.push(SchedEntity::new_group(CFSQueue::new(Pid(0))));
        }
        TaskGroup { se, parent_tg: ptg, children: Vec::new() }
    }

    /// The member run queue of one CPU.
    pub fn cfs(&self, cpu: usize) -> (r: Option<&CFSQueue>)
        requires
            cpu < self.se@.len(),
            self.wf(),
        ensures
            r matches Some(q) ==> self.se@[cpu as int].kind == SchedEntityKind::Group(
                Box::new(*q),
            ) && queue_wf(*q),
            r is Some,
    {
        self.se[cpu].group_cfs_rq()
    }

    /// Link this group into its parent: for every CPU, the group's entity —
    /// owning the run queue its members enqueue on — enters the parent's
    /// run queue, making the group a consumer in the parent's queue and the
    /// producer of its own. The group's entity list is drained by the move.
    pub fn init_group_se(&mut self, parent_sched: &mut SchedulerCFS)
        requires
            old(self).wf(),
            old(parent_sched).wf(),
            old(self).se@.len() == old(parent_sched).cpu_queue@.len(),
        ensures
            final(self).se@.len() == 0,
            final(self).parent_tg == old(self).parent_tg,
            final(self).children@ == old(self).children@,
            final(parent_sched).wf(),
            final(parent_sched).cpu_queue@.len() == old(parent_sched).cpu_queue@.len(),
            forall|c: int|
                0 <= c < old(parent_sched).cpu_queue@.len() ==> {
                    &&& (#[trigger] final(parent_sched).cpu_queue@[c]).entries@
                        == spec_insert_entity(
                        old(parent_sched).cpu_queue@[c].entries@,
                        old(self).se@[c],
                    )
                    &&& final(parent_sched).cpu_queue@[c].cpu_exec_proc_jiffies == old(parent_sched).cpu_queue@[c].cpu_exec_proc_jiffies
                    &&& final(parent_sched).cpu_queue@[c].idle_pcb == old(parent_sched).cpu_queue@[c].idle_pcb
                },
    {
        let n = parent_sched.cpu_queue.len();
        let mut cpu: usize = 0;
        while cpu < n
            invariant
                n == old(parent_sched).cpu_queue@.len(),
                0 <= cpu <= n,
                self.se@ == old(self).se@.skip(cpu as int),
                self.parent_tg == old(self).parent_tg,
                self.children@ == old(self).children@,
                old(self).wf(),
                old(self).se@.len() == n,
                parent_sched.wf(),
                parent_sched.cpu_queue@.len() == n,
                forall|c: int|
                    0 <= c < cpu ==> {
                        &&& (#[trigger] parent_sched.cpu_queue@[c]).entries@ == spec_insert_entity(
                            old(parent_sched).cpu_queue@[c].entries@,
                            old(self).se@[c],
                        )
                        &&& parent_sched.cpu_queue@[c].cpu_exec_proc_jiffies == old(parent_sched).cpu_queue@[c].cpu_exec_proc_jiffies
                        &&& parent_sched.cpu_queue@[c].idle_pcb == old(parent_sched).cpu_queue@[c].idle_pcb
                    },
                forall|c: int|
                    cpu <= c < n ==> #[trigger] parent_sched.cpu_queue@[c] == old(parent_sched).cpu_queue@[c],
            decreases n - cpu,
        {
            let e = self.se.remove(0);
            proof {
                assert(e == old(self).se@[cpu as int]);
                assert(self.se@ =~= old(self).se@.skip(cpu + 1));
                assert(entity_wf(e));
            }
            parent_sched.enqueue_group_se(e, cpu);
            cpu = cpu + 1;
        }
        proof {
            assert(self.se@ =~= old(self).se@.skip(n as int));
        }
    }

    /// Register a group under a process-group id in the group table.
    pub fn add_tg(gm: &mut ProcessGroupManager, pgid: Pid, tg: TaskGroup)
        requires
            old(gm).wf(),
        ensures
            final(gm).wf(),
            final(gm).tg_registered(pgid),
            final(gm).spec_tg(pgid) == tg,
            forall|q: Pid|
                q.0 != pgid.0 ==> (final(gm).tg_registered(q) <==> old(gm).tg_registered(q)) && (
                old(gm).tg_registered(q) ==> final(gm).spec_tg(q) == old(gm).spec_tg(q)),
            final(gm).spec_members_map_unchanged(old(gm)),
    {
        gm.insert_tg(pgid, tg);
    }
}

/// The process-wide registry of task groups and of process-group
/// membership: which group object a group id names, and the ordered list
/// of member pids of each group id, each behind one lock in the running
/// kernel.
pub struct ProcessGroupManager {
    /// The group table index: group id to slot in `tg_slots`.
    pub tg_index: PidMap,
    /// The registry slots owning the task groups.
    pub tg_slots: Vec<Option<TaskGroup>>,
    /// The membership table index: group id to slot in `member_slots`.
    pub member_index: PidMap,
    /// The slots owning the ordered member lists.
    pub member_slots: Vec<Option<Vec<Pid>>>,
}

impl ProcessGroupManager {
    /// Whether a task group is registered under `pgid`.
    pub open spec fn tg_registered(&self, pgid: Pid) -> bool {
        pid_map_entries(self.tg_index).dom().contains(pgid.0)
    }

    /// The task group registered under `pgid`.
    pub open spec fn spec_tg(&self, pgid: Pid) -> TaskGroup {
        self.tg_slots@[pid_map_entries(self.tg_index)[pgid.0] as int].unwrap()
    }

    /// Whether a membership list exists for `pgid`.
    pub open spec fn has_members(&self, pgid: Pid) -> bool {
        pid_map_entries(self.member_index).dom().contains(pgid.0)
    }

    /// The ordered member pids of group `pgid`.
    pub open spec fn spec_members(&self, pgid: Pid) -> Seq<Pid> {
        self.member_slots@[pid_map_entries(self.member_index)[pgid.0] as int].unwrap()@
    }

    /// Both tables are coherent: every index entry points at a live slot,
    /// and no two ids share a slot.
    pub open spec fn wf(&self) -> bool {
        &&& forall|k: usize| #[trigger]
            pid_map_entries(self.tg_index).dom().contains(k) ==> {
                &&& pid_map_entries(self.tg_index)[k] < self.tg_slots@.len()
                &&& self.tg_slots@[pid_map_entries(self.tg_index)[k] as int] is Some
            }
        &&& forall|k1: usize, k2: usize|
            pid_map_entries(self.tg_index).dom().contains(k1) && pid_map_entries(
                self.tg_index,
            ).dom().contains(k2) && k1 != k2 ==> pid_map_entries(self.tg_index)[k1]
                != pid_map_entries(self.tg_index)[k2]
        &&& forall|k: usize| #[trigger]
            pid_map_entries(self.member_index).dom().contains(k) ==> {
                &&& pid_map_entries(self.member_index)[k] < self.member_slots@.len()
                &&& self.member_slots@[pid_map_entries(self.member_index)[k] as int] is Some
            }
        &&& forall|k1: usize, k2: usize|
            pid_map_entries(self.member_index).dom().contains(k1) && pid_map_entries(
                self.member_index,
            ).dom().contains(k2) && k1 != k2 ==> pid_map_entries(self.member_index)[k1]
                != pid_map_entries(self.member_index)[k2]
    }

    /// The group table is unchanged.
    pub open spec fn spec_tg_map_unchanged(&self, o: &ProcessGroupManager) -> bool {
        &&& pid_map_entries(self.tg_index) == pid_map_entries(o.tg_index)
        &&& self.tg_slots@ == o.tg_slots@
    }

    /// The membership table is unchanged.
    pub open spec fn spec_members_map_unchanged(&self, o: &ProcessGroupManager) -> bool {
        &&& pid_map_entries(self.member_index) == pid_map_entries(o.member_index)
        &&& self.member_slots@ == o.member_slots@
    }

    /// An empty registry: no groups, no membership lists.
    pub fn new() -> (r: Self)
        ensures
            r.wf(),
            forall|p: Pid| !r.tg_registered(p),
            forall|p: Pid| !r.has_members(p),
    {
        ProcessGroupManager {
            tg_index: PidMap::new(),
            tg_slots: Vec::new(),
            member_index: PidMap::new(),
            member_slots: Vec::new(),
        }
    }

    /// The task group registered under `pgid`, if any.
    pub fn find(&self, pgid: Pid) -> (r: Option<&TaskGroup>)
        requires
            self.wf(),
        ensures
            r is Some <==> self.tg_registered(pgid),
            r matches Some(tg) ==> *tg == self.spec_tg(pgid),
    {
        let slot = match self.tg_index.get(pgid.0) {
            Some(s) => s,
            None => {
                return None;
            },
        };
        self.tg_slots[slot].as_ref()
    }

    /// Install `tg` under `pgid`; a later writer for the same id wins.
    pub(crate) fn insert_tg(&mut self, pgid: Pid, tg: TaskGroup)
        requires
            old(self).wf(),
        ensures
            final(self).wf(),
            final(self).tg_registered(pgid),
            final(self).spec_tg(pgid) == tg,
            forall|q: Pid|
                q.0 != pgid.0 ==> (final(self).tg_registered(q) <==> old(self).tg_registered(q))
                    && (old(self).tg_registered(q) ==> final(self).spec_tg(q) == old(self).spec_tg(
                    q,
                )),
            final(self).spec_members_map_unchanged(old(self)),
    {
        let ghost pre = *self;
        let slot = self.tg_slots.len();
        self.tg_slots.push(Some(tg));
        let _ = self.tg_index.insert(pgid.0, slot);
        proof {
            assert forall|q: Pid|
                q.0 != pgid.0 && pre.tg_registered(q) implies final(self).spec_tg(q) == pre.spec_tg(
                q,
            ) by {
                assert(self.tg_slots@[pre.slot_of_tg(q)] == pre.tg_slots@[pre.slot_of_tg(q)]);
            }
        }
    }

    /// The slot of a registered group id, for internal reasoning.
    pub open spec fn slot_of_tg(&self, pgid: Pid) -> int {
        pid_map_entries(self.tg_index)[pgid.0] as int
    }

    /// The slot of a group id's membership list, for internal reasoning.
    pub open spec fn slot_of_members(&self, pgid: Pid) -> int {
        pid_map_entries(self.member_index)[pgid.0] as int
    }

    /// Take a membership list out of its slot for mutation.
    fn take_members(&mut self, pgid: Pid) -> (r: Vec<Pid>)
        requires
            old(self).wf(),
            old(self).has_members(pgid),
        ensures
            r@ == old(self).spec_members(pgid),
            final(self).member_index == old(self).member_index,
            final(self).member_slots@ == old(self).member_slots@.update(
                old(self).slot_of_members(pgid),
                None,
            ),
            final(self).spec_tg_map_unchanged(old(self)),
    {
        let slot = match self.member_index.get(pgid.0) {
            Some(s) => s,
            None => 0,
        };
        let mut taken: Option<Vec<Pid>> = None;
        let e = &mut self.member_slots[slot];
        mem::swap(&mut taken, e);
        taken.unwrap()
    }

    /// Put a membership list back into its slot.
    fn put_members(&mut self, pgid: Pid, pids: Vec<Pid>)
        requires
            old(self).has_members(pgid),
            old(self).slot_of_members(pgid) < old(self).member_slots@.len(),
        ensures
            final(self).member_index == old(self).member_index,
            final(self).member_slots@ == old(self).member_slots@.update(
                old(self).slot_of_members(pgid),
                Some(pids),
            ),
            final(self).spec_tg_map_unchanged(old(self)),
    {
        let slot = match self.member_index.get(pgid.0) {
            Some(s) => s,
            None => 0,
        };
        let e = &mut self.member_slots[slot];
        *e = Some(pids);
    }

    /// After writing a list back under its id, the tables are coherent
    /// again and every other id reads as before.
    proof fn lemma_wf_after_put_members(
        pre: ProcessGroupManager,
        post: ProcessGroupManager,
        pgid: Pid,
        pids: Vec<Pid>,
    )
        requires
            pre.wf(),
            pre.has_members(pgid),
            post.member_index == pre.member_index,
            post.member_slots@.len() == pre.member_slots@.len(),
            post.member_slots@[pre.slot_of_members(pgid)] == Some(pids),
            forall|j: int|
                0 <= j < pre.member_slots@.len() && j != pre.slot_of_members(pgid)
                    ==> post.member_slots@[j] == pre.member_slots@[j],
            post.spec_tg_map_unchanged(&pre),
        ensures
            post.wf(),
            post.spec_members(pgid) == pids@,
            forall|q: Pid|
                q.0 != pgid.0 ==> (post.has_members(q) <==> pre.has_members(q)) && (
                pre.has_members(q) ==> post.spec_members(q) == pre.spec_members(q)),
    {
        assert forall|q: Pid|
            q.0 != pgid.0 && pre.has_members(q) implies post.has_members(q) && post.spec_members(q)
            == pre.spec_members(q) by {
            assert(pre.slot_of_members(q) != pre.slot_of_members(pgid));
        }
    }

    /// Create a membership list under a fresh group id.
    fn install_members(&mut self, pgid: Pid, pids: Vec<Pid>)
        requires
            old(self).wf(),
            !old(self).has_members(pgid),
        ensures
            final(self).wf(),
            final(self).has_members(pgid),
            final(self).spec_members(pgid) == pids@,
            forall|q: Pid|
                q.0 != pgid.0 ==> (final(self).has_members(q) <==> old(self).has_members(q)) && (
                old(self).has_members(q) ==> final(self).spec_members(q) == old(self).spec_members(
                    q,
                )),
            final(self).spec_tg_map_unchanged(old(self)),
    {
        let ghost pre = *self;
        let slot = self.member_slots.len();
        self.member_slots.push(Some(pids));
        let _ = self.member_index.insert(pgid.0, slot);
        proof {
            assert forall|q: Pid|
                q.0 != pgid.0 && pre.has_members(q) implies final(self).spec_members(q)
                == pre.spec_members(q) by {
                let sl = pre.slot_of_members(q);
                assert(self.member_slots@[sl] == pre.member_slots@[sl]);
            }
        }
    }

    /// Append a pid to an existing group's member list.
    pub fn add_process(&mut self, pgid: Pid, pid: Pid)
        requires
            old(self).wf(),
            old(self).has_members(pgid),
        ensures
            final(self).wf(),
            final(self).spec_members(pgid) == old(self).spec_members(pgid).push(pid),
            forall|q: Pid|
                q.0 != pgid.0 ==> (final(self).has_members(q) <==> old(self).has_members(q)) && (
                old(self).has_members(q) ==> final(self).spec_members(q) == old(self).spec_members(
                    q,
                )),
            final(self).spec_tg_map_unchanged(old(self)),
    {
        let ghost pre = *self;
        let mut pids = self.take_members(pgid);
        pids.push(pid);
        self.put_members(pgid, pids);
        proof {
            Self::lemma_wf_after_put_members(pre, *self, pgid, pids);
        }
    }

    /// Install the membership list of a newly formed group: it starts with
    /// the group id itself as first member, except for group 0. A later
    /// call for the same id replaces the list.
    pub fn add_group(&mut self, pgid: Pid)
        requires
            old(self).wf(),
        ensures
            final(self).wf(),
            final(self).has_members(pgid),
            final(self).spec_members(pgid) == (if pgid.0 != 0 {
                seq![pgid]
            } else {
                Seq::<Pid>::empty()
            }),
            forall|q: Pid|
                q.0 != pgid.0 ==> (final(self).has_members(q) <==> old(self).has_members(q)) && (
                old(self).has_members(q) ==> final(self).spec_members(q) == old(self).spec_members(
                    q,
                )),
            final(self).spec_tg_map_unchanged(old(self)),
    {
        let ghost pre = *self;
        let mut pids: Vec<Pid> = Vec::new();
        if pgid.0 != 0 {
            pids.push(pgid);
        }
        proof {
            if pgid.0 != 0 {
                assert(pids@ =~= seq![pgid]);
            }
        }
        if self.member_index.get(pgid.0).is_some() {
            self.put_members(pgid, pids);
            proof {
                Self::lemma_wf_after_put_members(pre, *self, pgid, pids);
            }
        } else {
            self.install_members(pgid, pids);
        }
    }

    /// The ordered member pids of group `pgid`, as a fresh list.
    pub fn get_group_by_pgid(&self, pgid: Pid) -> (r: Vec<Pid>)
        requires
            self.wf(),
            self.has_members(pgid),
        ensures
            r@ == self.spec_members(pgid),
    {
        let slot = match self.member_index.get(pgid.0) {
            Some(s) => s,
            None => 0,
        };
        let pids = match self.member_slots[slot].as_ref() {
            Some(p) => p,
            None => {
                return Vec::new();
            },
        };
        let mut out: Vec<Pid> = Vec::new();
        let mut i: usize = 0;
        while i < pids.len()
            invariant
                0 <= i <= pids@.len(),
                out@ == pids@.take(i as int),
            decreases pids@.len() - i,
        {
            out.push(pids[i]);
            i = i + 1;
        }
        proof {
            assert(pids@.take(pids@.len() as int) =~= pids@);
        }
        out
    }

    /// Move `pid` from the group `old_pgid` to the group `new_pgid`: it
    /// leaves the old member list; if the destination list exists the pid
    /// joins it, otherwise a fresh list is created holding the moved pid —
    /// which, for a process becoming its own group's leader, is the group
    /// id itself. Returns whether a new list was created.
    pub fn set_pgid_by_pid(&mut self, pid: Pid, new_pgid: Pid, old_pgid: Pid) -> (r: bool)
        requires
            old(self).wf(),
            old(self).has_members(old_pgid),
        ensures
            final(self).wf(),
            r == !old(self).has_members(new_pgid),
            final(self).has_members(new_pgid),
            ({
                let removed = old(self).spec_members(old_pgid).filter(ne_pid(pid));
                &&& (old(self).has_members(new_pgid) && new_pgid.0 == old_pgid.0 ==> final(self).spec_members(new_pgid) == removed.push(pid))
                &&& (old(self).has_members(new_pgid) && new_pgid.0 != old_pgid.0 ==> final(self).spec_members(new_pgid) == old(self).spec_members(new_pgid).push(pid) && final(self).spec_members(old_pgid) == removed)
                &&& (!old(self).has_members(new_pgid) ==> final(self).spec_members(new_pgid)
                    == seq![pid] && final(self).spec_members(old_pgid) == removed)
                &&& (forall|q: Pid|
                    q.0 != old_pgid.0 && q.0 != new_pgid.0 ==> (final(self).has_members(q) <==> old(self).has_members(q)) && (old(self).has_members(q) ==> final(self).spec_members(q)
                        == old(self).spec_members(q)))
            }),
            final(self).spec_tg_map_unchanged(old(self)),
    {
        let ghost pre = *self;
        let mut old_list = self.take_members(old_pgid);
        remove_pid_value(&mut old_list, pid);
        self.put_members(old_pgid, old_list);
        proof {
            Self::lemma_wf_after_put_members(pre, *self, old_pgid, old_list);
        }
        let ghost mid = *self;
        if self.member_index.get(new_pgid.0).is_some() {
            let mut new_list = self.take_members(new_pgid);
            new_list.push(pid);
            self.put_members(new_pgid, new_list);
            proof {
                Self::lemma_wf_after_put_members(mid, *self, new_pgid, new_list);
            }
            false
        } else {
            let mut new_list: Vec<Pid> = Vec::new();
            new_list.push(pid);
            proof {
                assert(new_list@ =~= seq![pid]);
            }
            self.install_members(new_pgid, new_list);
            true
        }
    }
}

} // verus!
