use crate::manager::ProcessManager;
use crate::pcb::ProcessControlBlock;
use crate::pid::Pid;
use crate::sched_info::SchedPriority;
use vstd::prelude::*;

verus! {

/// What a scheduling entity stands for: exactly one of a single process or
/// a task group owning the run queue of its members.
#[derive(Debug)]
pub enum SchedEntityKind {
    /// A leaf entity standing for the process with this pid.
    Process(Pid),
    /// A group entity owning the nested run queue of its members.
    Group(Box<CFSQueue>),
}

/// The unit the scheduler orders: a process or a whole task group, carrying
/// its fairness key (the virtual runtime) and a priority.
#[derive(Debug)]
pub struct SchedEntity {
    /// The scheduling priority.
    pub priority: SchedPriority,
    /// The virtual runtime this entity is keyed by in its run queue.
    pub virtual_runtime: i64,
    /// Whether the entity stands for a process or for a group.
    pub kind: SchedEntityKind,
}

/// A per-CPU run queue: the remaining execution budget of the chosen entity,
/// the entities ordered by virtual runtime, and the reserved idle process
/// returned when the queue has nothing to run.
#[derive(Debug)]
pub struct CFSQueue {
    /// The remaining execution jiffies of the currently chosen entity.
    pub cpu_exec_proc_jiffies: i64,
    /// The ready entities, sorted by virtual runtime, lowest first;
    /// equal keys keep insertion order.
    pub entries: Vec<SchedEntity>,
    /// The pid of this CPU's reserved idle process. Never inserted into
    /// `entries`: it is the fallback, not a competitor.
    pub idle_pcb: Pid,
}

/// Entities in non-decreasing virtual-runtime order.
pub open spec fn entities_sorted(s: Seq<SchedEntity>) -> bool {
    forall|i: int, j: int|
        0 <= i < j < s.len() ==> s[i].virtual_runtime <= s[j].virtual_runtime
}

/// A scheduling entity is well formed when a process entity never stands
/// for the idle process and a group entity owns a well-formed queue.
pub open spec fn entity_wf(e: SchedEntity) -> bool
    decreases e,
{
    match e.kind {
        SchedEntityKind::Process(p) => p.0 != 0,
        SchedEntityKind::Group(q) => queue_wf(*q),
    }
}

/// A run queue is well formed when its entities are sorted by virtual
/// runtime and each entity is itself well formed.
pub open spec fn queue_wf(q: CFSQueue) -> bool
    decreases q,
{
    &&& entities_sorted(q.entries@)
    &&& forall|i: int| 0 <= i < q.entries@.len() ==> entity_wf(#[trigger] q.entries@[i])
}

/// The position at which an entity keyed `key` is inserted into the sorted
/// entity sequence `s`: after every entity whose key is not larger, so that
/// equal keys are served in insertion order.
pub open spec fn vrt_upper_bound(s: Seq<SchedEntity>, key: i64) -> int
    decreases s.len(),
{
    if s.len() == 0 {
        0
    } else if s[0].virtual_runtime <= key {
        1 + vrt_upper_bound(s.drop_first(), key)
    } else {
        0
    }
}

/// The sorted sequence `s` with `e` inserted at its key's position.
pub open spec fn spec_insert_entity(s: Seq<SchedEntity>, e: SchedEntity) -> Seq<SchedEntity> {
    s.insert(vrt_upper_bound(s, e.virtual_runtime), e)
}

/// The process entity under which a process is enqueued.
pub open spec fn spec_process_entity(p: Pid, vrt: i64) -> SchedEntity {
    SchedEntity {
        priority: SchedPriority { data: 100 },
        virtual_runtime: vrt,
        kind: SchedEntityKind::Process(p),
    }
}

/// The next concrete process the queue offers, with the virtual runtime of
/// its entity: the front (lowest-keyed) entity, descending through a group
/// entity into the queue it owns until a process entity is reached. None
/// when the queue — or the nested queue the descent reaches — is empty.
pub open spec fn spec_pop_result(q: CFSQueue) -> Option<(Pid, i64)>
    decreases q,
{
    if q.entries@.len() == 0 {
        None
    } else {
        match q.entries@[0].kind {
            SchedEntityKind::Process(p) => Some((p, q.entries@[0].virtual_runtime)),
            SchedEntityKind::Group(g) => spec_pop_result(*g),
        }
    }
}

/// `vrt_upper_bound` names the unique sorted-insertion boundary: the index
/// `i` such that everything before `i` has a key at most `key` and the
/// entity at `i`, if any, has a larger key.
proof fn lemma_vrt_upper_bound_at(s: Seq<SchedEntity>, key: i64, i: int)
    requires
        entities_sorted(s),
        0 <= i <= s.len(),
        forall|j: int| 0 <= j < i ==> s[j].virtual_runtime <= key,
        i < s.len() ==> s[i].virtual_runtime > key,
    ensures
        vrt_upper_bound(s, key) == i,
    decreases s.len(),
{
    if s.len() == 0 {
    } else if s[0].virtual_runtime <= key {
        assert(i >= 1);
        let rest = s.drop_first();
        assert(forall|j: int| 0 <= j < i - 1 ==> rest[j].virtual_runtime <= key);
        lemma_vrt_upper_bound_at(rest, key, i - 1);
    } else {
        assert(i == 0);
    }
}

impl SchedEntity {
    /// A fresh process entity with the default priority and zero virtual
    /// runtime.
    pub fn new(pcb: Pid) -> (r: Self)
        requires
            pcb.0 != 0,
        ensures
            r == spec_process_entity(pcb, 0),
            entity_wf(r),
    {
        SchedEntity {
            priority: SchedPriority::default_priority(),
            virtual_runtime: 0,
            kind: SchedEntityKind::Process(pcb),
        }
    }

    /// A fresh group entity owning `my_q` as its members' run queue.
    pub fn new_group(my_q: CFSQueue) -> (r: Self)
        requires
            queue_wf(my_q),
        ensures
            r.priority.data == 100,
            r.virtual_runtime == 0,
            r.kind == SchedEntityKind::Group(Box::new(my_q)),
            entity_wf(r),
    {
        SchedEntity {
            priority: SchedPriority::default_priority(),
            virtual_runtime: 0,
            kind: SchedEntityKind::Group(Box::new(my_q)),
        }
    }

    pub fn virtual_runtime(&self) -> (r: i64)
        ensures
            r == self.virtual_runtime,
    {
        self.virtual_runtime
    }

    pub fn set_virtual_runtime(&mut self, virtual_runtime: i64)
        ensures
            *final(self) == (SchedEntity { virtual_runtime, ..*old(self) }),
    {
        self.virtual_runtime = virtual_runtime;
    }

    pub fn priority(&self) -> (r: SchedPriority)
        ensures
            r == self.priority,
    {
        self.priority
    }

    /// The pid of the process this entity stands for, if it is a process
    /// entity.
    pub fn pcb(&self) -> (r: Option<Pid>)
        ensures
            r == (match self.kind {
                SchedEntityKind::Process(p) => Some(p),
                SchedEntityKind::Group(_) => None::<Pid>,
            }),
    {
        match &self.kind {
            SchedEntityKind::Process(p) => Some(*p),
            SchedEntityKind::Group(_) => None,
        }
    }

    /// Turn this entity into a process entity for `pcb`.
    pub fn set_pcb(&mut self, pcb: Pid)
        ensures
            *final(self) == (SchedEntity {
                kind: SchedEntityKind::Process(pcb),
                ..*old(self)
            }),
    {
        self.kind = SchedEntityKind::Process(pcb);
    }

    /// The run queue this entity owns, if it is a group entity.
    pub fn group_cfs_rq(&self) -> (r: Option<&CFSQueue>)
        ensures
            (match self.kind {
                SchedEntityKind::Group(_) => r is Some,
                SchedEntityKind::Process(_) => r is None,
            }),
            r matches Some(q) ==> self.kind == SchedEntityKind::Group(Box::new(*q)),
    {
        match &self.kind {
            SchedEntityKind::Group(q) => Some(&**q),
            SchedEntityKind::Process(_) => None,
        }
    }
}

impl CFSQueue {
    /// An empty run queue for the CPU whose idle process is `idle_pcb`.
    pub fn new(idle_pcb: Pid) -> (r: CFSQueue)
        ensures
            r.cpu_exec_proc_jiffies == 0,
            r.entries@.len() == 0,
            r.idle_pcb == idle_pcb,
            queue_wf(r),
    {
        CFSQueue { cpu_exec_proc_jiffies: 0, entries: Vec::new(), idle_pcb }
    }

    /// Insert `e` at its key's sorted position, after any equal keys.
    pub(crate) fn insert_entity(&mut self, e: SchedEntity)
        requires
            queue_wf(*old(self)),
            entity_wf(e),
        ensures
            final(self).entries@ == spec_insert_entity(old(self).entries@, e),
            final(self).cpu_exec_proc_jiffies == old(self).cpu_exec_proc_jiffies,
            final(self).idle_pcb == old(self).idle_pcb,
            queue_wf(*final(self)),
    {
        let key = e.virtual_runtime;
        let mut i: usize = 0;
        while i < self.entries.len() && self.entries[i].virtual_runtime <= key
            invariant
                queue_wf(*self),
                *self == *old(self),
                0 <= i <= self.entries@.len(),
                forall|j: int| 0 <= j < i ==> self.entries@[j].virtual_runtime <= key,
            decreases self.entries@.len() - i,
        {
            i = i + 1;
        }
        proof {
            lemma_vrt_upper_bound_at(self.entries@, key, i as int);
            self.entries@.insert_ensures(i as int, e);
        }
        self.entries.insert(i, e);
        proof {
            let s = old(self).entries@;
            let t = self.entries@;
            assert forall|a: int, b: int| 0 <= a < b < t.len() implies t[a].virtual_runtime
                <= t[b].virtual_runtime by {
                if b < i {
                    assert(t[a] == s[a] && t[b] == s[b]);
                } else if a > i {
                    assert(t[a] == s[a - 1] && t[b] == s[b - 1]);
                } else if a < i && b == i {
                    assert(t[a] == s[a] && t[b] == e);
                } else if a == i && b > i {
                    assert(t[a] == e && t[b] == s[b - 1]);
                } else if a < i && b > i {
                    assert(t[a] == s[a] && t[b] == s[b - 1]);
                }
            }
            assert forall|a: int| 0 <= a < t.len() implies entity_wf(#[trigger] t[a]) by {
                if a < i {
                    assert(t[a] == s[a]);
                } else if a == i {
                    assert(t[a] == e);
                } else {
                    assert(t[a] == s[a - 1]);
                }
            }
        }
    }

    /// Enqueue a process, keyed by its current virtual runtime. The idle
    /// process (pid 0) is filtered out: it never competes in the queue.
    pub fn enqueue(&mut self, pcb: &ProcessControlBlock)
        requires
            queue_wf(*old(self)),
        ensures
            pcb.pid.0 == 0 ==> *final(self) == *old(self),
            pcb.pid.0 != 0 ==> final(self).entries@ == spec_insert_entity(
                old(self).entries@,
                spec_process_entity(pcb.pid, pcb.sched_info.virtual_runtime),
            ),
            final(self).cpu_exec_proc_jiffies == old(self).cpu_exec_proc_jiffies,
            final(self).idle_pcb == old(self).idle_pcb,
            queue_wf(*final(self)),
    {
        if pcb.pid().0 == 0 {
            return;
        }
        let mut e = SchedEntity::new(pcb.pid());
        e.set_virtual_runtime(pcb.sched_info().virtual_runtime());
        self.insert_entity(e);
    }

    /// Enqueue a scheduling entity, keyed by its own virtual runtime.
    pub fn enqueue_se(&mut self, se: SchedEntity)
        requires
            queue_wf(*old(self)),
            entity_wf(se),
        ensures
            final(self).entries@ == spec_insert_entity(old(self).entries@, se),
            final(self).cpu_exec_proc_jiffies == old(self).cpu_exec_proc_jiffies,
            final(self).idle_pcb == old(self).idle_pcb,
            queue_wf(*final(self)),
    {
        self.insert_entity(se);
    }

    /// Remove and return the lowest-virtual-runtime entity, or nothing when
    /// the queue is empty.
    pub fn dequeue_se(&mut self) -> (r: Option<SchedEntity>)
        requires
            queue_wf(*old(self)),
        ensures
            old(self).entries@.len() == 0 ==> r is None && *final(self) == *old(self),
            old(self).entries@.len() > 0 ==> {
                &&& r == Some(old(self).entries@[0])
                &&& final(self).entries@ == old(self).entries@.drop_first()
            },
            final(self).cpu_exec_proc_jiffies == old(self).cpu_exec_proc_jiffies,
            final(self).idle_pcb == old(self).idle_pcb,
            queue_wf(*final(self)),
    {
        if self.entries.len() == 0 {
            return None;
        }
        let e = self.entries.remove(0);
        proof {
            assert(final(self).entries@ =~= old(self).entries@.drop_first());
        }
        Some(e)
    }

    /// Remove and return the next concrete process, descending through a
    /// group entity at the front into the queue it owns. A group entity
    /// whose queue still holds entities afterwards is put back; one whose
    /// queue is exhausted is dropped. When the descent finds no process,
    /// the queue keeps all of its entities.
    pub fn pop_min_process(&mut self) -> (r: Option<(Pid, i64)>)
        requires
            queue_wf(*old(self)),
        ensures
            r == spec_pop_result(*old(self)),
            r matches Some(pv) ==> pv.0.0 != 0,
            r is None ==> final(self).entries@.len() == old(self).entries@.len(),
            old(self).entries@.len() > 0 && old(self).entries@[0].kind is Process
                ==> final(self).entries@ == old(self).entries@.drop_first(),
            final(self).entries@.len() <= old(self).entries@.len(),
            final(self).cpu_exec_proc_jiffies == old(self).cpu_exec_proc_jiffies,
            final(self).idle_pcb == old(self).idle_pcb,
            queue_wf(*final(self)),
        decreases *old(self),
    {
        if self.entries.len() == 0 {
            return None;
        }
        let e = self.entries.remove(0);
        proof {
            assert(self.entries@ =~= old(self).entries@.drop_first());
        }
        let SchedEntity { priority, virtual_runtime, kind } = e;
        match kind {
            SchedEntityKind::Process(p) => Some((p, virtual_runtime)),
            SchedEntityKind::Group(mut sub) => {
                let r = sub.pop_min_process();
                match r {
                    None => {
                        let back = SchedEntity {
                            priority,
                            virtual_runtime,
                            kind: SchedEntityKind::Group(sub),
                        };
                        proof {
                            lemma_front_reinsert_sorted(old(self).entries@, self.entries@, back);
                        }
                        self.entries.insert(0, back);
                        None
                    },
                    Some(pv) => {
                        if sub.get_cfs_queue_size() > 0 {
                            let back = SchedEntity {
                                priority,
                                virtual_runtime,
                                kind: SchedEntityKind::Group(sub),
                            };
                            proof {
                                lemma_front_reinsert_sorted(old(self).entries@, self.entries@, back);
                            }
                            self.entries.insert(0, back);
                        }
                        Some(pv)
                    },
                }
            },
        }
    }

    /// Remove and return the pid of the next process to run, or this CPU's
    /// idle process when the queue has nothing to offer: a run queue never
    /// answers "nothing", it degrades to idle.
    pub fn dequeue(&mut self) -> (r: Pid)
        requires
            queue_wf(*old(self)),
        ensures
            r == (match spec_pop_result(*old(self)) {
                Some((p, _)) => p,
                None => old(self).idle_pcb,
            }),
            spec_pop_result(*old(self)) is None ==> final(self).entries@.len() == old(self).entries@.len(),
            final(self).entries@.len() <= old(self).entries@.len(),
            final(self).cpu_exec_proc_jiffies == old(self).cpu_exec_proc_jiffies,
            final(self).idle_pcb == old(self).idle_pcb,
            queue_wf(*final(self)),
    {
        match self.pop_min_process() {
            Some((p, _)) => p,
            None => self.idle_pcb,
        }
    }

    /// The lowest virtual runtime in the queue, or nothing when it is empty.
    pub fn min_vruntime(&self) -> (r: Option<i64>)
        requires
            queue_wf(*self),
        ensures
            self.entries@.len() == 0 ==> r is None,
            self.entries@.len() > 0 ==> {
                &&& r == Some(self.entries@[0].virtual_runtime)
                &&& forall|i: int|
                    0 <= i < self.entries@.len() ==> self.entries@[0].virtual_runtime
                        <= #[trigger] self.entries@[i].virtual_runtime
            },
    {
        if self.entries.len() > 0 {
            Some(self.entries[0].virtual_runtime)
        } else {
            None
        }
    }

    /// The number of entities in the queue.
    pub fn get_cfs_queue_size(&self) -> (r: usize)
        ensures
            r == self.entries@.len(),
    {
        self.entries.len()
    }
}

/// Re-inserting at the front an entity whose key is no larger than every
/// key in the remainder keeps the remainder sorted and well formed.
proof fn lemma_front_reinsert_sorted(orig: Seq<SchedEntity>, rest: Seq<SchedEntity>, back: SchedEntity)
    requires
        entities_sorted(orig),
        orig.len() > 0,
        rest == orig.drop_first(),
        back.virtual_runtime == orig[0].virtual_runtime,
    ensures
        forall|i: int|
            0 <= i < rest.len() ==> back.virtual_runtime <= #[trigger] rest[i].virtual_runtime,
{
    assert forall|i: int|
        0 <= i < rest.len() implies back.virtual_runtime
        <= #[trigger] rest[i].virtual_runtime by {
        assert(rest[i] == orig[i + 1]);
    }
}


/// The CFS scheduler: one run queue per CPU.
#[derive(Debug)]
pub struct SchedulerCFS {
    /// The per-CPU run queues, indexed by CPU id.
    pub cpu_queue: Vec<CFSQueue>,
}

impl SchedulerCFS {
    /// Every per-CPU queue is well formed.
    pub open spec fn wf(&self) -> bool {
        forall|i: int| 0 <= i < self.cpu_queue@.len() ==> queue_wf(#[trigger] self.cpu_queue@[i])
    }

    /// A fresh scheduler with one empty run queue per CPU, each falling
    /// back to the idle process (pid 0).
    pub fn new(n_cpus: usize) -> (r: Self)
        ensures
            r.cpu_queue@.len() == n_cpus,
            r.wf(),
            forall|i: int|
                0 <= i < n_cpus ==> {
                    &&& (#[trigger] r.cpu_queue@[i]).entries@.len() == 0
                    &&& r.cpu_queue@[i].cpu_exec_proc_jiffies == 0
                    &&& r.cpu_queue@[i].idle_pcb == Pid(0)
                },
    {
        let mut cpu_queue: Vec<CFSQueue> = Vec::new();
        for i in 0..n_cpus
            invariant
                cpu_queue@.len() == i,
                forall|j: int|
                    0 <= j < i ==> {
                        &&& (#[trigger] cpu_queue@[j]).entries@.len() == 0
                        &&& cpu_queue@[j].cpu_exec_proc_jiffies == 0
                        &&& cpu_queue@[j].idle_pcb == Pid(0)
                        &&& queue_wf(cpu_queue@[j])
                    },
        {
            cpu_queue.push(CFSQueue::new(Pid(0)));
        }
        SchedulerCFS { cpu_queue }
    }

    /// The run queue of one CPU.
    pub fn get_cpu_queue(&self, cpu_id: usize) -> (r: &CFSQueue)
        requires
            cpu_id < self.cpu_queue@.len(),
        ensures
            *r == self.cpu_queue@[cpu_id as int],
    {
        &self.cpu_queue[cpu_id]
    }

    /// Refresh the execution budget of the chosen entity on this queue.
    /// Scheduling periods weighted by the priorities of all runnable
    /// processes are a stated open extension point; the budget is a
    /// constant for now.
    fn update_cpu_exec_proc_jiffies(_priority: SchedPriority, cfs_queue: &mut CFSQueue)
        ensures
            *final(cfs_queue) == (CFSQueue { cpu_exec_proc_jiffies: 10, ..*old(cfs_queue) }),
    {
        cfs_queue.cpu_exec_proc_jiffies = 10;
    }

    /// Account one timer tick on `cpu` against the currently executing
    /// process: the CPU's remaining jiffies drop by one; when they are
    /// exhausted the current process is marked as needing a reschedule (it
    /// is not preempted immediately); its virtual runtime always advances
    /// by one unit.
    pub fn timer_update_jiffies(&mut self, cpu: usize, current: &mut ProcessControlBlock)
        requires
            cpu < old(self).cpu_queue@.len(),
            old(self).cpu_queue@[cpu as int].cpu_exec_proc_jiffies > i64::MIN,
            old(current).sched_info.virtual_runtime < i64::MAX,
        ensures
            final(self).cpu_queue@ == old(self).cpu_queue@.update(
                cpu as int,
                (CFSQueue {
                    cpu_exec_proc_jiffies: (old(self).cpu_queue@[cpu as int].cpu_exec_proc_jiffies
                        - 1) as i64,
                    ..old(self).cpu_queue@[cpu as int]
                }),
            ),
            final(current).flags == (if old(self).cpu_queue@[cpu as int].cpu_exec_proc_jiffies - 1
                <= 0 {
                old(current).flags.spec_with(crate::state::ProcessFlag::NeedSchedule, true)
            } else {
                old(current).flags
            }),
            final(current).sched_info == (crate::sched_info::ProcessSchedulerInfo {
                virtual_runtime: (old(current).sched_info.virtual_runtime + 1) as i64,
                ..old(current).sched_info
            }),
            *final(current) == (ProcessControlBlock {
                flags: final(current).flags,
                sched_info: final(current).sched_info,
                ..*old(current)
            }),
    {
        let q = &mut self.cpu_queue[cpu];
        q.cpu_exec_proc_jiffies = q.cpu_exec_proc_jiffies - 1;
        if q.cpu_exec_proc_jiffies <= 0 {
            current.flags.insert(crate::state::ProcessFlag::NeedSchedule);
        }
        current.sched_info.increase_virtual_runtime(1);
    }

    /// Enqueue a process on its CPU's queue, first resetting its virtual
    /// runtime to the queue's current minimum when the queue is not empty,
    /// so that neither a stale small value starves the others nor a stale
    /// large value starves the process itself.
    pub fn enqueue_reset_vruntime(&mut self, pcb: &mut ProcessControlBlock)
        requires
            old(self).wf(),
            old(pcb).sched_info.on_cpu is Some,
            old(pcb).sched_info.on_cpu.unwrap() < old(self).cpu_queue@.len(),
        ensures
            final(self).wf(),
            final(self).cpu_queue@.len() == old(self).cpu_queue@.len(),
            final(pcb).sched_info.virtual_runtime == spec_reset_vruntime(
                old(self).cpu_queue@[old(pcb).sched_info.on_cpu.unwrap() as int],
                old(pcb).sched_info.virtual_runtime,
            ),
            *final(pcb) == (ProcessControlBlock {
                sched_info: (crate::sched_info::ProcessSchedulerInfo {
                    virtual_runtime: final(pcb).sched_info.virtual_runtime,
                    ..old(pcb).sched_info
                }),
                ..*old(pcb)
            }),
            final(self).cpu_queue@ == old(self).cpu_queue@.update(
                old(pcb).sched_info.on_cpu.unwrap() as int,
                final(self).cpu_queue@[old(pcb).sched_info.on_cpu.unwrap() as int],
            ),
            spec_enqueued(
                old(self).cpu_queue@[old(pcb).sched_info.on_cpu.unwrap() as int],
                final(self).cpu_queue@[old(pcb).sched_info.on_cpu.unwrap() as int],
                old(pcb).pid,
                final(pcb).sched_info.virtual_runtime,
            ),
    {
        let cpu = match pcb.sched_info().on_cpu() {
            Some(c) => c,
            None => 0,
        };
        let cpu_queue = &mut self.cpu_queue[cpu as usize];
        if cpu_queue.get_cfs_queue_size() > 0 {
            let m = match cpu_queue.min_vruntime() {
                Some(m) => m,
                None => 0,
            };
            pcb.sched_info_mut().set_virtual_runtime(m);
        }
        cpu_queue.enqueue(pcb);
    }

    /// Enqueue a process's scheduling entity on its CPU's queue, keyed by
    /// its current virtual runtime.
    pub fn enqueue_se(&mut self, pcb: &ProcessControlBlock)
        requires
            old(self).wf(),
            pcb.sched_info.on_cpu is Some,
            pcb.sched_info.on_cpu.unwrap() < old(self).cpu_queue@.len(),
            pcb.pid.0 != 0,
        ensures
            final(self).wf(),
            final(self).cpu_queue@ == old(self).cpu_queue@.update(
                pcb.sched_info.on_cpu.unwrap() as int,
                (CFSQueue {
                    entries: final(self).cpu_queue@[pcb.sched_info.on_cpu.unwrap() as int].entries,
                    ..old(self).cpu_queue@[pcb.sched_info.on_cpu.unwrap() as int]
                }),
            ),
            final(self).cpu_queue@[pcb.sched_info.on_cpu.unwrap() as int].entries@
                == spec_insert_entity(
                old(self).cpu_queue@[pcb.sched_info.on_cpu.unwrap() as int].entries@,
                spec_process_entity(pcb.pid, pcb.sched_info.virtual_runtime),
            ),
    {
        let cpu = match pcb.sched_info().on_cpu() {
            Some(c) => c,
            None => 0,
        };
        let cpu_queue = &mut self.cpu_queue[cpu as usize];
        let mut e = SchedEntity::new(pcb.pid());
        e.set_virtual_runtime(pcb.sched_info().virtual_runtime());
        cpu_queue.enqueue_se(e);
    }

    /// Enqueue a group's scheduling entity on one CPU's queue when the
    /// group is created.
    pub fn enqueue_group_se(&mut self, tg_se: SchedEntity, cpu: usize)
        requires
            old(self).wf(),
            entity_wf(tg_se),
            cpu < old(self).cpu_queue@.len(),
        ensures
            final(self).wf(),
            final(self).cpu_queue@ == old(self).cpu_queue@.update(
                cpu as int,
                (CFSQueue {
                    entries: final(self).cpu_queue@[cpu as int].entries,
                    ..old(self).cpu_queue@[cpu as int]
                }),
            ),
            final(self).cpu_queue@[cpu as int].entries@ == spec_insert_entity(
                old(self).cpu_queue@[cpu as int].entries@,
                tg_se,
            ),
    {
        let cpu_queue = &mut self.cpu_queue[cpu];
        cpu_queue.enqueue_se(tg_se);
    }

    /// Install the pid of one CPU's reserved idle process.
    pub fn set_cpu_idle(&mut self, cpu_id: usize, pcb: Pid)
        requires
            cpu_id < old(self).cpu_queue@.len(),
        ensures
            final(self).cpu_queue@ == old(self).cpu_queue@.update(
                cpu_id as int,
                (CFSQueue { idle_pcb: pcb, ..old(self).cpu_queue@[cpu_id as int] }),
            ),
            old(self).wf() ==> final(self).wf(),
    {
        let q = &mut self.cpu_queue[cpu_id];
        q.idle_pcb = pcb;
    }

    /// The number of entities in one CPU's run queue.
    pub fn get_cfs_queue_len(&self, cpu_id: u32) -> (r: usize)
        requires
            cpu_id < self.cpu_queue@.len(),
        ensures
            r == self.cpu_queue@[cpu_id as int].entries@.len(),
    {
        self.cpu_queue[cpu_id as usize].get_cfs_queue_size()
    }

    /// Enqueue a process on the queue of the CPU recorded in its
    /// scheduling info, keyed by its current virtual runtime; the idle
    /// process is filtered out.
    pub fn enqueue_pcb(&mut self, pcb: &ProcessControlBlock)
        requires
            old(self).wf(),
            pcb.sched_info.on_cpu is Some,
            pcb.sched_info.on_cpu.unwrap() < old(self).cpu_queue@.len(),
        ensures
            final(self).wf(),
            final(self).cpu_queue@ == old(self).cpu_queue@.update(
                pcb.sched_info.on_cpu.unwrap() as int,
                (CFSQueue {
                    entries: final(self).cpu_queue@[pcb.sched_info.on_cpu.unwrap() as int].entries,
                    ..old(self).cpu_queue@[pcb.sched_info.on_cpu.unwrap() as int]
                }),
            ),
            spec_enqueued(
                old(self).cpu_queue@[pcb.sched_info.on_cpu.unwrap() as int],
                final(self).cpu_queue@[pcb.sched_info.on_cpu.unwrap() as int],
                pcb.pid,
                pcb.sched_info.virtual_runtime,
            ),
    {
        let cpu = match pcb.sched_info().on_cpu() {
            Some(c) => c,
            None => 0,
        };
        let cpu_queue = &mut self.cpu_queue[cpu as usize];
        cpu_queue.enqueue(pcb);
    }
}

/// The virtual runtime a process is given when enqueued with a reset:
/// the queue's minimum when the queue is not empty, its own value otherwise.
pub open spec fn spec_reset_vruntime(q: CFSQueue, own: i64) -> i64 {
    if q.entries@.len() > 0 {
        q.entries@[0].virtual_runtime
    } else {
        own
    }
}

/// How one CPU's queue changes when process `p` with virtual runtime `vrt`
/// is enqueued: the idle process is filtered out, anything else is inserted
/// at its key's position; the budget and the idle fallback stay.
pub open spec fn spec_enqueued(before: CFSQueue, after: CFSQueue, p: Pid, vrt: i64) -> bool {
    &&& after.entries@ == (if p.0 == 0 {
        before.entries@
    } else {
        spec_insert_entity(before.entries@, spec_process_entity(p, vrt))
    })
    &&& after.cpu_exec_proc_jiffies == before.cpu_exec_proc_jiffies
    &&& after.idle_pcb == before.idle_pcb
}


/// The candidate `sched` weighs on one CPU: the next process the run queue
/// offers, or the queue's reserved idle process with the idle block's
/// virtual runtime.
pub open spec fn spec_sched_candidate(q: CFSQueue, idle_vrt: i64) -> (Pid, i64) {
    match spec_pop_result(q) {
        Some(pv) => pv,
        None => (q.idle_pcb, idle_vrt),
    }
}

/// Whether handing the CPU to the candidate is warranted: the current
/// process is no longer runnable, or the candidate is strictly ahead in
/// fairness. An equal virtual runtime favors continuing the current
/// process, minimizing switch churn.
pub open spec fn spec_switch_warranted(
    cur_state: crate::state::ProcessState,
    cur_vrt: i64,
    cand_vrt: i64,
) -> bool {
    !cur_state.spec_is_runnable() || cand_vrt < cur_vrt
}

impl SchedulerCFS {
    /// The per-CPU selection entry point, callable only with interrupts
    /// disabled: clear the current process's needs-reschedule flag, pop the
    /// best entity from this CPU's run queue (descending through group
    /// entities to the concrete process they nest, degrading to the
    /// reserved idle process when nothing is ready), and compare. A switch
    /// is warranted when the current process is no longer runnable or the
    /// candidate has strictly less virtual runtime; the current process, if
    /// still runnable, then returns to the queue and the candidate is
    /// handed back for the architecture layer to switch to. Otherwise the
    /// candidate is pushed back and nothing is returned. An exhausted time
    /// slice is refreshed either way.
    pub fn sched(&mut self, pm: &mut ProcessManager, cpu: usize) -> (r: Option<Pid>)
        requires
            old(self).wf(),
            old(pm).wf(),
            old(pm).initialized,
            cpu < old(pm).n_cpus,
            cpu < old(self).cpu_queue@.len(),
            !old(pm).irq_enabled@[cpu as int],
            old(self).cpu_queue@[cpu as int].idle_pcb == Pid(0),
        ensures
            final(self).wf(),
            final(pm).wf(),
            ({
                let q0 = old(self).cpu_queue@[cpu as int];
                let curp = old(pm).spec_current_pcb(cpu as int);
                let idle_vrt = old(pm).idles@[cpu as int].sched_info.virtual_runtime;
                let cand = spec_sched_candidate(q0, idle_vrt);
                let switch = spec_switch_warranted(
                    curp.sched_info.state,
                    curp.sched_info.virtual_runtime,
                    cand.1,
                );
                let reenq = switch && curp.sched_info.state.spec_is_runnable() && old(pm).current@[cpu as int].0 != 0;
                let cur_ent = spec_process_entity(
                    old(pm).current@[cpu as int],
                    curp.sched_info.virtual_runtime,
                );
                &&& r == (if switch {
                    Some(cand.0)
                } else {
                    None::<Pid>
                })
                &&& final(self).cpu_queue@.len() == old(self).cpu_queue@.len()
                &&& (forall|j: int|
                    0 <= j < old(self).cpu_queue@.len() && j != cpu ==> final(self).cpu_queue@[j]
                        == old(self).cpu_queue@[j])
                &&& final(self).cpu_queue@[cpu as int].idle_pcb == q0.idle_pcb
                &&& final(self).cpu_queue@[cpu as int].cpu_exec_proc_jiffies == (
                if q0.cpu_exec_proc_jiffies <= 0 {
                    10
                } else {
                    q0.cpu_exec_proc_jiffies
                })
                &&& (q0.entries@.len() == 0 ==> final(self).cpu_queue@[cpu as int].entries@ == (
                if reenq {
                    spec_insert_entity(Seq::empty(), cur_ent)
                } else {
                    Seq::<SchedEntity>::empty()
                }))
                &&& (q0.entries@.len() > 0 && q0.entries@[0].kind is Process ==> final(self).cpu_queue@[cpu as int].entries@ == (if switch {
                    if reenq {
                        spec_insert_entity(q0.entries@.drop_first(), cur_ent)
                    } else {
                        q0.entries@.drop_first()
                    }
                } else {
                    spec_insert_entity(
                        q0.entries@.drop_first(),
                        spec_process_entity(cand.0, cand.1),
                    )
                }))
                &&& final(pm).spec_current_pcb(cpu as int) == (ProcessControlBlock {
                    flags: curp.flags.spec_with(crate::state::ProcessFlag::NeedSchedule, false),
                    ..curp
                })
                &&& (forall|q: Pid|
                    q != old(pm).current@[cpu as int] ==> final(pm).spec_find(q) == old(pm).spec_find(q))
                &&& (old(pm).current@[cpu as int].0 != 0 ==> final(pm).idles@ == old(pm).idles@)
                &&& final(pm).initialized == old(pm).initialized
                &&& final(pm).n_cpus == old(pm).n_cpus
                &&& final(pm).next_pid == old(pm).next_pid
                &&& final(pm).current@ == old(pm).current@
                &&& final(pm).switch_results@ == old(pm).switch_results@
                &&& final(pm).irq_enabled@ == old(pm).irq_enabled@
            }),
    {
        pm.clear_need_schedule(cpu);
        let cur = pm.current_pcb(cpu);
        let cur_state = cur.sched_info.state;
        let cur_vrt = cur.sched_info.virtual_runtime;
        let cur_prio = cur.sched_info.priority;
        let idle_vrt = pm.idles[cpu].sched_info.virtual_runtime;

        let q = &mut self.cpu_queue[cpu];
        let popped = q.pop_min_process();
        let (cand_pid, cand_vrt) = match popped {
            Some(pv) => pv,
            None => (q.idle_pcb, idle_vrt),
        };

        let switch = !cur_state.is_runnable() || cand_vrt < cur_vrt;
        if switch {
            if cur_state.is_runnable() {
                let cur_ref = pm.current_pcb(cpu);
                q.enqueue(cur_ref);
            }
            if q.cpu_exec_proc_jiffies <= 0 {
                Self::update_cpu_exec_proc_jiffies(cur_prio, q);
            }
            Some(cand_pid)
        } else {
            match popped {
                Some(_) => {
                    let mut e = SchedEntity::new(cand_pid);
                    e.set_virtual_runtime(cand_vrt);
                    q.enqueue_se(e);
                },
                None => {},
            }
            if q.cpu_exec_proc_jiffies <= 0 {
                Self::update_cpu_exec_proc_jiffies(cur_prio, q);
            }
            None
        }
    }
}

/// Build the CFS scheduler instance for `n_cpus` CPUs. The kernel installs
/// the result as its process-wide scheduler before any scheduling runs.
pub fn sched_cfs_init(n_cpus: usize) -> (r: SchedulerCFS)
    ensures
        r.cpu_queue@.len() == n_cpus,
        r.wf(),
        forall|i: int|
            0 <= i < n_cpus ==> {
                &&& (#[trigger] r.cpu_queue@[i]).entries@.len() == 0
                &&& r.cpu_queue@[i].cpu_exec_proc_jiffies == 0
                &&& r.cpu_queue@[i].idle_pcb == Pid(0)
            },
{
    SchedulerCFS::new(n_cpus)
}


/// Within one CPU's run queue, entities are served in non-decreasing
/// virtual-runtime order: the head of a well-formed queue — what a dequeue
/// removes — carries a virtual runtime no larger than any entity's.
pub proof fn lemma_queue_head_is_minimal(q: CFSQueue)
    requires
        queue_wf(q),
        q.entries@.len() > 0,
    ensures
        forall|i: int|
            0 <= i < q.entries@.len() ==> q.entries@[0].virtual_runtime
                <= #[trigger] q.entries@[i].virtual_runtime,
{
}

/// The selection tie-break: a candidate with an equal virtual runtime does
/// not preempt a runnable current process — only a strictly smaller one
/// does, and a current process that is no longer runnable is always
/// switched away from.
pub proof fn lemma_sched_tie_break(cur: crate::state::ProcessState, cur_vrt: i64, cand_vrt: i64)
    ensures
        cur is Runnable && cand_vrt == cur_vrt ==> !spec_switch_warranted(cur, cur_vrt, cand_vrt),
        cur is Runnable && cand_vrt < cur_vrt ==> spec_switch_warranted(cur, cur_vrt, cand_vrt),
        !(cur is Runnable) ==> spec_switch_warranted(cur, cur_vrt, cand_vrt),
{
}

/// A run queue never answers "nothing to run": when it offers no process,
/// a dequeue returns the CPU's reserved idle process.
pub proof fn lemma_dequeue_degrades_to_idle(q: CFSQueue)
    requires
        spec_pop_result(q) is None,
    ensures
        (match spec_pop_result(q) {
            Some((p, _)) => p,
            None => q.idle_pcb,
        }) == q.idle_pcb,
{
}

} // verus!
