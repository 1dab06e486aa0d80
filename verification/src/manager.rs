use crate::cfs::SchedulerCFS;
use crate::cfs::spec_enqueued;
use crate::cfs::spec_reset_vruntime;
use crate::error::SystemError;
use crate::pcb::ProcessControlBlock;
use crate::pid::Pid;
use crate::pid_map::PidMap;
use crate::pid_map::pid_map_entries;
use crate::state::ProcessFlag;
use crate::state::ProcessState;
use core::mem;
use vstd::prelude::*;

verus! {

broadcast use vstd::seq_lib::lemma_seq_contains_after_push;

/// What a context switch hands to the switch-finish hook: the outgoing and
/// incoming process control blocks whose scheduling-info locks were leaked
/// across the switch and must be released on the other side.
#[derive(Debug)]
pub struct SwitchResult {
    /// The process that was switched away from.
    pub prev_pcb: Option<Pid>,
    /// The process that was switched to.
    pub next_pcb: Option<Pid>,
}

impl SwitchResult {
    /// An empty record: no switch is pending.
    pub fn new() -> (r: Self)
        ensures
            r.prev_pcb is None,
            r.next_pcb is None,
    {
        SwitchResult { prev_pcb: None, next_pcb: None }
    }
}

/// The process-wide authority for cross-process operations: the pid
/// registry, per-CPU execution state, pid allocation, state transitions,
/// and the handoff at context-switch completion.
///
/// The running kernel keeps this state in lock-protected globals; the model
/// gathers it in one value whose construction is the explicit
/// init-before-use lifecycle.
pub struct ProcessManager {
    /// Whether initialization has completed.
    pub initialized: bool,
    /// The number of CPUs.
    pub n_cpus: usize,
    /// The next pid to allocate; pids are handed out monotonically.
    pub next_pid: usize,
    /// The registry index: pid to slot in `slots`.
    pub index: PidMap,
    /// The registry slots owning the live process control blocks.
    pub slots: Vec<Option<ProcessControlBlock>>,
    /// The per-CPU reserved idle processes, all with pid 0.
    pub idles: Vec<ProcessControlBlock>,
    /// The pid executing on each CPU.
    pub current: Vec<Pid>,
    /// The per-CPU pending switch records for the switch-finish hook.
    pub switch_results: Vec<SwitchResult>,
    /// The per-CPU interrupt-enable state, as the architecture reports it.
    pub irq_enabled: Vec<bool>,
}

impl ProcessManager {
    /// Whether `pid` has an entry in the registry.
    pub open spec fn registered(&self, pid: Pid) -> bool {
        pid_map_entries(self.index).dom().contains(pid.0)
    }

    /// The registry slot of a registered pid.
    pub open spec fn slot_of(&self, pid: Pid) -> int {
        pid_map_entries(self.index)[pid.0] as int
    }

    /// The process control block registered under `pid`.
    pub open spec fn spec_pcb(&self, pid: Pid) -> ProcessControlBlock {
        self.slots@[self.slot_of(pid)].unwrap()
    }

    /// What a registry lookup returns.
    pub open spec fn spec_find(&self, pid: Pid) -> Option<ProcessControlBlock> {
        if self.registered(pid) {
            Some(self.spec_pcb(pid))
        } else {
            None
        }
    }

    /// The process control block executing on `cpu`: the CPU's reserved
    /// idle process when the current pid is 0, the registered process
    /// otherwise.
    pub open spec fn spec_current_pcb(&self, cpu: int) -> ProcessControlBlock {
        if self.current@[cpu].0 == 0 {
            self.idles@[cpu]
        } else {
            self.spec_pcb(self.current@[cpu])
        }
    }

    /// The registry is coherent: every index entry points at a live slot
    /// holding a well-formed block with that pid, no two pids share a slot,
    /// pid 0 is never registered, registered pids were allocated, each
    /// CPU's vectors have one element per CPU, the idle blocks carry pid 0,
    /// and every executing pid is idle or registered.
    pub open spec fn wf(&self) -> bool {
        &&& self.idles@.len() == self.n_cpus
        &&& self.current@.len() == self.n_cpus
        &&& self.switch_results@.len() == self.n_cpus
        &&& self.irq_enabled@.len() == self.n_cpus
        &&& self.next_pid >= 1
        &&& forall|k: usize| #[trigger]
            pid_map_entries(self.index).dom().contains(k) ==> {
                &&& pid_map_entries(self.index)[k] < self.slots@.len()
                &&& self.slots@[pid_map_entries(self.index)[k] as int] is Some
                &&& self.slots@[pid_map_entries(self.index)[k] as int].unwrap().pid.0 == k
                &&& self.slots@[pid_map_entries(self.index)[k] as int].unwrap().wf()
                &&& k != 0
            }
        &&& forall|k1: usize, k2: usize|
            pid_map_entries(self.index).dom().contains(k1) && pid_map_entries(
                self.index,
            ).dom().contains(k2) && k1 != k2 ==> pid_map_entries(self.index)[k1]
                != pid_map_entries(self.index)[k2]
        &&& forall|i: int|
            0 <= i < self.n_cpus ==> (#[trigger] self.idles@[i]).pid == Pid(0)
                && self.idles@[i].wf()
        &&& forall|i: int|
            0 <= i < self.n_cpus ==> ((#[trigger] self.current@[i]).0 == 0 || self.registered(
                self.current@[i],
            ))
    }

    /// The per-CPU state and the allocator are unchanged.
    pub open spec fn same_cpus_and_counter(&self, o: &ProcessManager) -> bool {
        &&& self.initialized == o.initialized
        &&& self.n_cpus == o.n_cpus
        &&& self.next_pid == o.next_pid
        &&& self.idles@ == o.idles@
        &&& self.current@ == o.current@
        &&& self.switch_results@ == o.switch_results@
        &&& self.irq_enabled@ == o.irq_enabled@
    }

    /// The registry holds the same entries (by view).
    pub open spec fn same_registry(&self, o: &ProcessManager) -> bool {
        &&& pid_map_entries(self.index) == pid_map_entries(o.index)
        &&& self.slots@ == o.slots@
    }

    /// Build the process manager: an empty registry, one idle process per
    /// CPU (runnable, assigned to its CPU), every CPU executing its idle
    /// process, interrupts enabled, and no pending switch.
    ///
    /// The kernel runs this once at boot, before any other operation of
    /// this component.
    pub fn init(n_cpus: usize) -> (r: ProcessManager)
        requires
            1 <= n_cpus,
            n_cpus <= u32::MAX,
        ensures
            r.wf(),
            r.initialized,
            r.n_cpus == n_cpus,
            r.next_pid == 1,
            forall|p: Pid| !r.registered(p),
            forall|i: int| 0 <= i < n_cpus ==> (#[trigger] r.current@[i]) == Pid(0),
            forall|i: int| 0 <= i < n_cpus ==> (#[trigger] r.irq_enabled@[i]) == true,
            forall|i: int|
                0 <= i < n_cpus ==> (#[trigger] r.switch_results@[i]).prev_pcb is None
                    && r.switch_results@[i].next_pcb is None,
            forall|i: int|
                0 <= i < n_cpus ==> {
                    &&& (#[trigger] r.idles@[i]).pid == Pid(0)
                    &&& r.idles@[i].sched_info.state == ProcessState::Runnable
                    &&& r.idles@[i].sched_info.on_cpu == Some(i as u32)
                },
    {
        let mut idles: Vec<ProcessControlBlock> = Vec::new();
        let mut current: Vec<Pid> = Vec::new();
        let mut switch_results: Vec<SwitchResult> = Vec::new();
        let mut irq_enabled: Vec<bool> = Vec::new();
        for i in 0..n_cpus
            invariant
                n_cpus <= u32::MAX,
                idles@.len() == i,
                current@.len() == i,
                switch_results@.len() == i,
                irq_enabled@.len() == i,
                forall|j: int| 0 <= j < i ==> (#[trigger] current@[j]) == Pid(0),
                forall|j: int| 0 <= j < i ==> (#[trigger] irq_enabled@[j]) == true,
                forall|j: int|
                    0 <= j < i ==> (#[trigger] switch_results@[j]).prev_pcb is None
                        && switch_results@[j].next_pcb is None,
                forall|j: int|
                    0 <= j < i ==> {
                        &&& (#[trigger] idles@[j]).pid == Pid(0)
                        &&& idles@[j].wf()
                        &&& idles@[j].sched_info.state == ProcessState::Runnable
                        &&& idles@[j].sched_info.on_cpu == Some(j as u32)
                    },
        {
            let kstack = crate::stack::KernelStack::new().unwrap();
            let mut idle = ProcessControlBlock::new_idle(i as u32, kstack);
            idle.sched_info.set_state(ProcessState::Runnable);
            idle.sched_info.set_on_cpu(Some(i as u32));
            let ghost gidle = idle;
            idles.push(idle);
            current.push(Pid(0));
            switch_results.push(SwitchResult::new());
            irq_enabled.push(true);
            proof {
                assert(idles@[i as int] == gidle);
                assert(gidle.pid == Pid(0) && gidle.wf());
                assert(gidle.sched_info.state == ProcessState::Runnable);
                assert(gidle.sched_info.on_cpu == Some(i as u32));
                assert(current@[i as int] == Pid(0));
                assert(irq_enabled@[i as int] == true);
                assert(switch_results@[i as int].prev_pcb is None);
                assert(switch_results@[i as int].next_pcb is None);
            }
        }
        let r = ProcessManager {
            initialized: true,
            n_cpus,
            next_pid: 1,
            index: PidMap::new(),
            slots: Vec::new(),
            idles,
            current,
            switch_results,
            irq_enabled,
        };
        proof {
            assert(forall|p: Pid| !r.registered(p));
        }
        r
    }

    /// The process control block of the context executing on `cpu`.
    pub fn current_pcb(&self, cpu: usize) -> (r: &ProcessControlBlock)
        requires
            self.wf(),
            cpu < self.n_cpus,
        ensures
            *r == self.spec_current_pcb(cpu as int),
    {
        let pid = self.current[cpu];
        if pid.0 == 0 {
            &self.idles[cpu]
        } else {
            let slot = match self.index.get(pid.0) {
                Some(s) => s,
                None => 0,
            };
            match self.slots[slot].as_ref() {
                Some(p) => p,
                None => &self.idles[cpu],
            }
        }
    }

    /// Registry lookup: the process registered under `pid`, if any.
    pub fn find(&self, pid: Pid) -> (r: Option<&ProcessControlBlock>)
        requires
            self.wf(),
        ensures
            (match r {
                Some(p) => self.spec_find(pid) == Some(*p),
                None => self.spec_find(pid) is None,
            }),
            r is Some <==> self.registered(pid),
    {
        let slot = match self.index.get(pid.0) {
            Some(s) => s,
            None => {
                return None;
            },
        };
        self.slots[slot].as_ref()
    }

    /// Insert a process into the registry under its pid. The last writer
    /// for a pid wins; this is expected to run exactly once per pid.
    pub fn add_pcb(&mut self, pcb: ProcessControlBlock)
        requires
            old(self).wf(),
            pcb.pid.0 != 0,
            pcb.wf(),
        ensures
            final(self).wf(),
            final(self).registered(pcb.pid),
            final(self).spec_find(pcb.pid) == Some(pcb),
            forall|q: Pid|
                q.0 != pcb.pid.0 ==> final(self).spec_find(q) == old(self).spec_find(q)
                    && (final(self).registered(q) <==> old(self).registered(q)),
            final(self).same_cpus_and_counter(old(self)),
    {
        let ghost pre = *self;
        let slot = self.slots.len();
        let key = pcb.pid.0;
        self.slots.push(Some(pcb));
        let _ = self.index.insert(key, slot);
        proof {
            assert forall|q: Pid| q.0 != pcb.pid.0 implies final(self).spec_find(q) == pre.spec_find(
                q,
            ) && (final(self).registered(q) <==> pre.registered(q)) by {
                if pre.registered(q) {
                    assert(self.slots@[pre.slot_of(q)] == pre.slots@[pre.slot_of(q)]);
                }
            }
        }
    }

    /// Take a registered process out of its slot for mutation.
    fn take_pcb(&mut self, pid: Pid) -> (r: ProcessControlBlock)
        requires
            old(self).wf(),
            old(self).registered(pid),
        ensures
            r == old(self).spec_pcb(pid),
            final(self).index == old(self).index,
            final(self).slots@ == old(self).slots@.update(old(self).slot_of(pid), None),
            final(self).same_cpus_and_counter(old(self)),
    {
        let slot = match self.index.get(pid.0) {
            Some(s) => s,
            None => 0,
        };
        let mut taken: Option<ProcessControlBlock> = None;
        let e = &mut self.slots[slot];
        mem::swap(&mut taken, e);
        taken.unwrap()
    }

    /// Put a process back into its registry slot.
    fn put_pcb(&mut self, pcb: ProcessControlBlock)
        requires
            old(self).registered(pcb.pid),
            old(self).slot_of(pcb.pid) < old(self).slots@.len(),
        ensures
            final(self).index == old(self).index,
            final(self).slots@ == old(self).slots@.update(old(self).slot_of(pcb.pid), Some(pcb)),
            final(self).same_cpus_and_counter(old(self)),
    {
        let slot = match self.index.get(pcb.pid.0) {
            Some(s) => s,
            None => 0,
        };
        let e = &mut self.slots[slot];
        *e = Some(pcb);
    }

    /// After writing back a well-formed block under its own pid, the
    /// registry is coherent again and every other pid reads as before.
    proof fn lemma_wf_after_put(pre: ProcessManager, post: ProcessManager, pcb: ProcessControlBlock)
        requires
            pre.wf(),
            pre.registered(pcb.pid),
            pcb.wf(),
            post.index == pre.index,
            post.slots@.len() == pre.slots@.len(),
            post.slots@[pre.slot_of(pcb.pid)] == Some(pcb),
            forall|j: int|
                0 <= j < pre.slots@.len() && j != pre.slot_of(pcb.pid) ==> post.slots@[j]
                    == pre.slots@[j],
            post.same_cpus_and_counter(&pre),
        ensures
            post.wf(),
            post.spec_find(pcb.pid) == Some(pcb),
            forall|q: Pid|
                q.0 != pcb.pid.0 ==> post.spec_find(q) == pre.spec_find(q) && (post.registered(q)
                    <==> pre.registered(q)),
    {
        assert forall|q: Pid| q.0 != pcb.pid.0 implies post.spec_find(q) == pre.spec_find(q) && (
        post.registered(q) <==> pre.registered(q)) by {
            if pre.registered(q) {
                assert(pre.slot_of(q) != pre.slot_of(pcb.pid));
            }
        }
    }

    /// The new state `wakeup` gives a process found in state `s`.
    pub open spec fn spec_wakeup_state(s: ProcessState) -> ProcessState {
        if s is Blocked {
            ProcessState::Runnable
        } else {
            s
        }
    }

    /// Whether `wakeup` enqueues a process found in state `s`.
    pub open spec fn spec_wakeup_enqueues(s: ProcessState) -> bool {
        s is Blocked
    }

    /// Whether `wakeup` succeeds on a process found in state `s`.
    pub open spec fn spec_wakeup_ok(s: ProcessState) -> bool {
        !s.spec_is_exited()
    }

    /// Whether `mark_sleep` succeeds for a caller found in state `s`.
    pub open spec fn spec_mark_sleep_ok(s: ProcessState) -> bool {
        !s.spec_is_exited()
    }

    /// Wake a process: invalid on an already-exited target; success and no
    /// effect on an already-runnable one; a blocked one becomes runnable
    /// and is enqueued, with its virtual runtime reset against its CPU's
    /// queue, after the state write completes.
    pub fn wakeup(&mut self, sched: &mut SchedulerCFS, pid: Pid) -> (r: Result<(), SystemError>)
        requires
            old(self).wf(),
            old(sched).wf(),
            old(self).registered(pid),
            old(self).spec_pcb(pid).sched_info.state is Blocked ==> {
                &&& old(self).spec_pcb(pid).sched_info.on_cpu is Some
                &&& old(self).spec_pcb(pid).sched_info.on_cpu.unwrap() < old(sched).cpu_queue@.len()
            },
        ensures
            final(self).wf(),
            final(sched).wf(),
            r is Ok <==> Self::spec_wakeup_ok(old(self).spec_pcb(pid).sched_info.state),
            final(self).registered(pid),
            old(self).spec_pcb(pid).sched_info.state.spec_is_exited() ==> {
                &&& r == Result::<(), SystemError>::Err(SystemError::EINVAL)
                &&& *final(self) == *old(self)
                &&& *final(sched) == *old(sched)
            },
            old(self).spec_pcb(pid).sched_info.state.spec_is_runnable() ==> {
                &&& *final(self) == *old(self)
                &&& *final(sched) == *old(sched)
            },
            final(self).spec_pcb(pid).sched_info.state == Self::spec_wakeup_state(
                old(self).spec_pcb(pid).sched_info.state,
            ),
            forall|q: Pid|
                q.0 != pid.0 ==> final(self).spec_find(q) == old(self).spec_find(q) && (final(self).registered(q) <==> old(self).registered(q)),
            final(self).same_cpus_and_counter(old(self)),
            old(self).spec_pcb(pid).sched_info.state is Blocked ==> {
                let c = old(self).spec_pcb(pid).sched_info.on_cpu.unwrap() as int;
                let vrt = spec_reset_vruntime(
                    old(sched).cpu_queue@[c],
                    old(self).spec_pcb(pid).sched_info.virtual_runtime,
                );
                &&& final(self).spec_pcb(pid) == (ProcessControlBlock {
                    sched_info: (crate::sched_info::ProcessSchedulerInfo {
                        state: ProcessState::Runnable,
                        virtual_runtime: vrt,
                        ..old(self).spec_pcb(pid).sched_info
                    }),
                    ..old(self).spec_pcb(pid)
                })
                &&& final(sched).cpu_queue@.len() == old(sched).cpu_queue@.len()
                &&& spec_enqueued(
                    old(sched).cpu_queue@[c],
                    final(sched).cpu_queue@[c],
                    pid,
                    vrt,
                )
                &&& forall|j: int|
                    0 <= j < old(sched).cpu_queue@.len() && j != c
                        ==> final(sched).cpu_queue@[j] == old(sched).cpu_queue@[j]
            },
    {
        let ghost pre = *self;
        let state = match self.find(pid) {
            Some(p) => p.sched_info.state,
            None => ProcessState::Runnable,
        };
        if state.is_blocked() {
            let mut pcb = self.take_pcb(pid);
            pcb.sched_info.set_state(ProcessState::Runnable);
            sched.enqueue_reset_vruntime(&mut pcb);
            self.put_pcb(pcb);
            proof {
                Self::lemma_wf_after_put(pre, *self, pcb);
            }
            Ok(())
        } else if state.is_exited() {
            Err(SystemError::EINVAL)
        } else {
            Ok(())
        }
    }

    /// The new state `mark_sleep` gives the calling process found in
    /// state `s`.
    pub open spec fn spec_mark_sleep_state(s: ProcessState, interruptable: bool) -> ProcessState {
        if s is Exited {
            s
        } else {
            ProcessState::Blocked(interruptable)
        }
    }

    /// Declare that the context executing on `cpu` intends to sleep: its
    /// state becomes blocked and its needs-reschedule flag is raised, or an
    /// interrupted-call error is returned if it has already exited. Only a
    /// process acting on its own behalf calls this — never the reserved
    /// idle process — and only with interrupts already disabled on `cpu`;
    /// the caller, not this function, invokes the scheduler afterwards.
    pub fn mark_sleep(&mut self, cpu: usize, interruptable: bool) -> (r: Result<(), SystemError>)
        requires
            old(self).wf(),
            cpu < old(self).n_cpus,
            !old(self).irq_enabled@[cpu as int],
            old(self).current@[cpu as int].0 != 0,
        ensures
            final(self).wf(),
            r is Ok <==> Self::spec_mark_sleep_ok(
                old(self).spec_current_pcb(cpu as int).sched_info.state,
            ),
            final(self).registered(old(self).current@[cpu as int]),
            old(self).spec_current_pcb(cpu as int).sched_info.state.spec_is_exited() ==> {
                &&& r == Result::<(), SystemError>::Err(SystemError::EINTR)
                &&& *final(self) == *old(self)
            },
            final(self).spec_pcb(old(self).current@[cpu as int]).sched_info.state
                == Self::spec_mark_sleep_state(
                old(self).spec_current_pcb(cpu as int).sched_info.state,
                interruptable,
            ),
            r is Ok ==> final(self).spec_pcb(old(self).current@[cpu as int]) == (ProcessControlBlock {
                sched_info: (crate::sched_info::ProcessSchedulerInfo {
                    state: ProcessState::Blocked(interruptable),
                    ..old(self).spec_current_pcb(cpu as int).sched_info
                }),
                flags: old(self).spec_current_pcb(cpu as int).flags.spec_with(
                    ProcessFlag::NeedSchedule,
                    true,
                ),
                ..old(self).spec_current_pcb(cpu as int)
            }),
            forall|q: Pid|
                q.0 != old(self).current@[cpu as int].0 ==> final(self).spec_find(q) == old(self).spec_find(q) && (final(self).registered(q) <==> old(self).registered(q)),
            final(self).same_cpus_and_counter(old(self)),
    {
        let ghost pre = *self;
        let pid = self.current[cpu];
        let exited = match self.find(pid) {
            Some(p) => p.sched_info.state.is_exited(),
            None => false,
        };
        if exited {
            return Err(SystemError::EINTR);
        }
        let mut pcb = self.take_pcb(pid);
        pcb.sched_info.set_state(ProcessState::Blocked(interruptable));
        pcb.flags.insert(ProcessFlag::NeedSchedule);
        self.put_pcb(pcb);
        proof {
            Self::lemma_wf_after_put(pre, *self, pcb);
        }
        Ok(())
    }

    /// Reclaim a pid's registry slot. A pid with no entry is a silent
    /// success; an entry whose block still has strong references outside
    /// the registry is a detectable fatal condition, reported as a
    /// permission error and leaving the entry in place so the caller can
    /// halt; only an otherwise-unreferenced block is removed.
    pub fn release(&mut self, pid: Pid) -> (r: Result<(), SystemError>)
        requires
            old(self).wf(),
            forall|i: int| 0 <= i < old(self).n_cpus ==> old(self).current@[i] != pid,
        ensures
            final(self).wf(),
            !old(self).registered(pid) ==> r is Ok && *final(self) == *old(self),
            old(self).registered(pid) && old(self).spec_pcb(pid).extern_refs == 0 ==> {
                &&& r is Ok
                &&& !final(self).registered(pid)
                &&& final(self).spec_find(pid) is None
            },
            old(self).registered(pid) && old(self).spec_pcb(pid).extern_refs > 0 ==> {
                &&& r == Result::<(), SystemError>::Err(SystemError::EPERM)
                &&& *final(self) == *old(self)
            },
            forall|q: Pid|
                q.0 != pid.0 ==> final(self).spec_find(q) == old(self).spec_find(q) && (final(self).registered(q) <==> old(self).registered(q)),
            final(self).same_cpus_and_counter(old(self)),
    {
        let ghost pre = *self;
        let slot = match self.index.get(pid.0) {
            Some(s) => s,
            None => {
                return Ok(());
            },
        };
        let still_referenced = match self.slots[slot].as_ref() {
            Some(p) => p.extern_refs > 0,
            None => false,
        };
        if still_referenced {
            return Err(SystemError::EPERM);
        }
        let e = &mut self.slots[slot];
        *e = None;
        let _ = self.index.remove(pid.0);
        proof {
            assert forall|q: Pid| q.0 != pid.0 implies final(self).spec_find(q) == pre.spec_find(q)
                && (final(self).registered(q) <==> pre.registered(q)) by {
                if pre.registered(q) {
                    assert(pre.slot_of(q) != pre.slot_of(pid));
                }
            }
        }
        Ok(())
    }

    /// Record one more strong reference to a registered block, held
    /// outside the registry.
    pub fn add_reference(&mut self, pid: Pid)
        requires
            old(self).wf(),
            old(self).registered(pid),
            old(self).spec_pcb(pid).extern_refs < usize::MAX,
        ensures
            final(self).wf(),
            final(self).spec_pcb(pid) == (ProcessControlBlock {
                extern_refs: (old(self).spec_pcb(pid).extern_refs + 1) as usize,
                ..old(self).spec_pcb(pid)
            }),
            final(self).registered(pid),
            forall|q: Pid|
                q.0 != pid.0 ==> final(self).spec_find(q) == old(self).spec_find(q) && (final(self).registered(q) <==> old(self).registered(q)),
            final(self).same_cpus_and_counter(old(self)),
    {
        let ghost pre = *self;
        let mut pcb = self.take_pcb(pid);
        pcb.extern_refs = pcb.extern_refs + 1;
        self.put_pcb(pcb);
        proof {
            Self::lemma_wf_after_put(pre, *self, pcb);
        }
    }

    /// Drop one strong reference held outside the registry. When the last
    /// one goes, the block is destroyed: it leaves its parent's child list
    /// and its registry entry is reclaimed, after which lookups return
    /// nothing.
    pub fn drop_reference(&mut self, pid: Pid)
        requires
            old(self).wf(),
            old(self).registered(pid),
            old(self).spec_pcb(pid).extern_refs > 0,
            old(self).spec_pcb(pid).extern_refs == 1 ==> forall|i: int|
                0 <= i < old(self).n_cpus ==> old(self).current@[i] != pid,
        ensures
            final(self).wf(),
            old(self).spec_pcb(pid).extern_refs > 1 ==> {
                &&& final(self).spec_pcb(pid) == (ProcessControlBlock {
                    extern_refs: (old(self).spec_pcb(pid).extern_refs - 1) as usize,
                    ..old(self).spec_pcb(pid)
                })
                &&& final(self).registered(pid)
                &&& forall|q: Pid|
                    q.0 != pid.0 ==> final(self).spec_find(q) == old(self).spec_find(q)
            },
            old(self).spec_pcb(pid).extern_refs == 1 ==> {
                &&& !final(self).registered(pid)
                &&& final(self).spec_find(pid) is None
                &&& forall|q: Pid|
                    q.0 != pid.0 && Some(q) != old(self).spec_pcb(pid).parent_pid ==> final(self).spec_find(q) == old(self).spec_find(q)
                &&& (match old(self).spec_pcb(pid).parent_pid {
                    Some(pp) => pp.0 != pid.0 && old(self).registered(pp) ==> final(self).spec_find(pp) == Some(
                        (ProcessControlBlock {
                            children: final(self).spec_pcb(pp).children,
                            ..old(self).spec_pcb(pp)
                        }),
                    ) && final(self).spec_pcb(pp).children@ == old(self).spec_pcb(
                        pp,
                    ).children@.filter(ne_pid(pid)),
                    None => true,
                })
            },
            final(self).same_cpus_and_counter(old(self)),
    {
        let ghost pre = *self;
        let mut pcb = self.take_pcb(pid);
        if pcb.extern_refs > 1 {
            pcb.extern_refs = pcb.extern_refs - 1;
            self.put_pcb(pcb);
            proof {
                Self::lemma_wf_after_put(pre, *self, pcb);
            }
            return;
        }
        pcb.extern_refs = 0;
        let parent = pcb.parent_pid;
        self.put_pcb(pcb);
        proof {
            Self::lemma_wf_after_put(pre, *self, pcb);
        }
        if let Some(pp) = parent {
            if pp.0 != pid.0 {
                let parent_registered = self.index.get(pp.0).is_some();
                if parent_registered {
                    let ghost before_parent = *self;
                    let mut ppcb = self.take_pcb(pp);
                    proof {
                        lemma_filter_distinct(ppcb.children@, ne_pid(pid));
                    }
                    remove_pid_value(&mut ppcb.children, pid);
                    self.put_pcb(ppcb);
                    proof {
                        Self::lemma_wf_after_put(before_parent, *self, ppcb);
                    }
                }
            }
        }
        let _ = self.release(pid);
    }

    /// Record `waiter` on the wait queue of the registered process `pid`;
    /// a waiter already recorded there is not recorded twice.
    pub fn register_waiter(&mut self, pid: Pid, waiter: Pid)
        requires
            old(self).wf(),
            old(self).registered(pid),
        ensures
            final(self).wf(),
            final(self).spec_pcb(pid) == (ProcessControlBlock {
                wait_queue: final(self).spec_pcb(pid).wait_queue,
                ..old(self).spec_pcb(pid)
            }),
            final(self).spec_pcb(pid).wait_queue@ == (if old(self).spec_pcb(
                pid,
            ).wait_queue@.contains(waiter) {
                old(self).spec_pcb(pid).wait_queue@
            } else {
                old(self).spec_pcb(pid).wait_queue@.push(waiter)
            }),
            forall|q: Pid|
                q.0 != pid.0 ==> final(self).spec_find(q) == old(self).spec_find(q) && (final(self).registered(q) <==> old(self).registered(q)),
            final(self).same_cpus_and_counter(old(self)),
    {
        let ghost pre = *self;
        let mut pcb = self.take_pcb(pid);
        if !contains_pid(&pcb.wait_queue, waiter) {
            let ghost oldwq = pcb.wait_queue@;
            pcb.wait_queue.push(waiter);
            proof {
                assert forall|i: int, j: int|
                    0 <= i < j < pcb.wait_queue@.len() implies pcb.wait_queue@[i]
                    != pcb.wait_queue@[j] by {
                    if j == pcb.wait_queue@.len() - 1 {
                        assert(oldwq.contains(oldwq[i]));
                    }
                }
            }
        }
        self.put_pcb(pcb);
        proof {
            Self::lemma_wf_after_put(pre, *self, pcb);
        }
    }
}


impl ProcessManager {
    /// Install which pid is executing on `cpu`, as reported at the
    /// completion of a context switch.
    pub fn set_current(&mut self, cpu: usize, pid: Pid)
        requires
            old(self).wf(),
            cpu < old(self).n_cpus,
            pid.0 == 0 || old(self).registered(pid),
        ensures
            final(self).wf(),
            final(self).current@ == old(self).current@.update(cpu as int, pid),
            final(self).same_registry(old(self)),
            final(self).initialized == old(self).initialized,
            final(self).n_cpus == old(self).n_cpus,
            final(self).next_pid == old(self).next_pid,
            final(self).idles@ == old(self).idles@,
            final(self).switch_results@ == old(self).switch_results@,
            final(self).irq_enabled@ == old(self).irq_enabled@,
    {
        let e = &mut self.current[cpu];
        *e = pid;
    }

    /// Record the interrupt-enable state of `cpu`, as the architecture
    /// layer reports it when interrupts are disabled or restored.
    pub fn set_irq_enabled(&mut self, cpu: usize, enabled: bool)
        requires
            old(self).wf(),
            cpu < old(self).n_cpus,
        ensures
            final(self).wf(),
            final(self).irq_enabled@ == old(self).irq_enabled@.update(cpu as int, enabled),
            final(self).same_registry(old(self)),
            final(self).initialized == old(self).initialized,
            final(self).n_cpus == old(self).n_cpus,
            final(self).next_pid == old(self).next_pid,
            final(self).idles@ == old(self).idles@,
            final(self).current@ == old(self).current@,
            final(self).switch_results@ == old(self).switch_results@,
    {
        let e = &mut self.irq_enabled[cpu];
        *e = enabled;
    }

    /// Raise the preemption-disable counter of the context executing on
    /// `cpu`; a no-op before initialization completes. A counter, not a
    /// flag, so that critical sections nest.
    pub fn preempt_disable(&mut self, cpu: usize)
        requires
            old(self).wf(),
            cpu < old(self).n_cpus,
            old(self).initialized ==> old(self).spec_current_pcb(cpu as int).preempt_count
                < usize::MAX,
        ensures
            final(self).wf(),
            !old(self).initialized ==> *final(self) == *old(self),
            old(self).initialized ==> final(self).spec_current_pcb(cpu as int)
                == (ProcessControlBlock {
                preempt_count: (old(self).spec_current_pcb(cpu as int).preempt_count + 1) as usize,
                ..old(self).spec_current_pcb(cpu as int)
            }),
            old(self).initialized && old(self).current@[cpu as int].0 != 0 ==> final(self).idles@
                == old(self).idles@ && (forall|q: Pid|
                q.0 != old(self).current@[cpu as int].0 ==> final(self).spec_find(q) == old(self).spec_find(q)),
            old(self).initialized && old(self).current@[cpu as int].0 == 0 ==> final(self).same_registry(old(self)) && (forall|j: int|
                0 <= j < old(self).n_cpus && j != cpu ==> final(self).idles@[j] == old(self).idles@[j]) && final(self).idles@.len() == old(self).idles@.len(),
            final(self).initialized == old(self).initialized,
            final(self).n_cpus == old(self).n_cpus,
            final(self).next_pid == old(self).next_pid,
            final(self).current@ == old(self).current@,
            final(self).switch_results@ == old(self).switch_results@,
            final(self).irq_enabled@ == old(self).irq_enabled@,
    {
        if !self.initialized {
            return;
        }
        let ghost pre = *self;
        let pid = self.current[cpu];
        if pid.0 == 0 {
            let p = &mut self.idles[cpu];
            p.preempt_disable();
        } else {
            let mut pcb = self.take_pcb(pid);
            pcb.preempt_disable();
            self.put_pcb(pcb);
            proof {
                Self::lemma_wf_after_put(pre, *self, pcb);
            }
        }
    }

    /// Lower the preemption-disable counter of the context executing on
    /// `cpu`; a no-op before initialization completes.
    pub fn preempt_enable(&mut self, cpu: usize)
        requires
            old(self).wf(),
            cpu < old(self).n_cpus,
            old(self).initialized ==> old(self).spec_current_pcb(cpu as int).preempt_count > 0,
        ensures
            final(self).wf(),
            !old(self).initialized ==> *final(self) == *old(self),
            old(self).initialized ==> final(self).spec_current_pcb(cpu as int)
                == (ProcessControlBlock {
                preempt_count: (old(self).spec_current_pcb(cpu as int).preempt_count - 1) as usize,
                ..old(self).spec_current_pcb(cpu as int)
            }),
            old(self).initialized && old(self).current@[cpu as int].0 != 0 ==> final(self).idles@
                == old(self).idles@ && (forall|q: Pid|
                q.0 != old(self).current@[cpu as int].0 ==> final(self).spec_find(q) == old(self).spec_find(q)),
            old(self).initialized && old(self).current@[cpu as int].0 == 0 ==> final(self).same_registry(old(self)) && (forall|j: int|
                0 <= j < old(self).n_cpus && j != cpu ==> final(self).idles@[j] == old(self).idles@[j]) && final(self).idles@.len() == old(self).idles@.len(),
            final(self).initialized == old(self).initialized,
            final(self).n_cpus == old(self).n_cpus,
            final(self).next_pid == old(self).next_pid,
            final(self).current@ == old(self).current@,
            final(self).switch_results@ == old(self).switch_results@,
            final(self).irq_enabled@ == old(self).irq_enabled@,
    {
        if !self.initialized {
            return;
        }
        let ghost pre = *self;
        let pid = self.current[cpu];
        if pid.0 == 0 {
            let p = &mut self.idles[cpu];
            p.preempt_enable();
        } else {
            let mut pcb = self.take_pcb(pid);
            pcb.preempt_enable();
            self.put_pcb(pcb);
            proof {
                Self::lemma_wf_after_put(pre, *self, pcb);
            }
        }
    }

    /// Whether the target pid must be kicked, and on which CPU: the target
    /// is actively executing there, so that CPU must trap into kernel mode
    /// for a pending flag to be observed promptly. The trap itself is the
    /// architecture layer's work; the caller sends it to the returned CPU.
    /// The check runs with preemption disabled so the assignment is stable.
    pub fn kick(&mut self, cpu: usize, pid: Pid) -> (r: Option<u32>)
        requires
            old(self).wf(),
            old(self).initialized,
            cpu < old(self).n_cpus,
            old(self).registered(pid),
            old(self).spec_current_pcb(cpu as int).preempt_count < usize::MAX,
            old(self).spec_pcb(pid).sched_info.on_cpu matches Some(c) ==> c < old(self).n_cpus,
        ensures
            final(self).wf(),
            r == (match old(self).spec_pcb(pid).sched_info.on_cpu {
                Some(c) => if old(self).current@[c as int] == pid {
                    Some(c)
                } else {
                    None::<u32>
                },
                None => None::<u32>,
            }),
            forall|q: Pid| final(self).spec_find(q) == old(self).spec_find(q),
            final(self).idles@.len() == old(self).idles@.len(),
            forall|j: int|
                0 <= j < old(self).n_cpus ==> final(self).idles@[j] == old(self).idles@[j],
            final(self).initialized == old(self).initialized,
            final(self).n_cpus == old(self).n_cpus,
            final(self).next_pid == old(self).next_pid,
            final(self).current@ == old(self).current@,
            final(self).switch_results@ == old(self).switch_results@,
            final(self).irq_enabled@ == old(self).irq_enabled@,
    {
        self.preempt_disable(cpu);
        let cpu_id = match self.find(pid) {
            Some(p) => p.sched_info.on_cpu,
            None => None,
        };
        let r = match cpu_id {
            Some(c) => {
                if self.current[c as usize].0 == pid.0 {
                    Some(c)
                } else {
                    None
                }
            },
            None => None,
        };
        self.preempt_enable(cpu);
        r
    }
}

/// Build the process manager for `n_cpus` CPUs: the one-time boot entry
/// point of this component.
pub fn process_init(n_cpus: usize) -> (r: ProcessManager)
    requires
        1 <= n_cpus,
        n_cpus <= u32::MAX,
    ensures
        r.wf(),
        r.initialized,
        r.n_cpus == n_cpus,
        r.next_pid == 1,
        forall|p: Pid| !r.registered(p),
        forall|i: int| 0 <= i < n_cpus ==> (#[trigger] r.current@[i]) == Pid(0),
{
    ProcessManager::init(n_cpus)
}


impl ProcessManager {
    /// Whether the architecture-info lock of `pid` (resolved against
    /// `cpu`'s idle process when pid 0) is held.
    pub open spec fn spec_arch_locked(&self, cpu: int, pid: Pid) -> bool {
        if pid.0 == 0 {
            self.idles@[cpu].arch_info_locked
        } else {
            self.spec_pcb(pid).arch_info_locked
        }
    }

    /// Set the architecture-info lock state of a pid resolved on `cpu`.
    fn set_arch_locked(&mut self, cpu: usize, pid: Pid, locked: bool)
        requires
            old(self).wf(),
            cpu < old(self).n_cpus,
            pid.0 == 0 || old(self).registered(pid),
        ensures
            final(self).wf(),
            final(self).spec_arch_locked(cpu as int, pid) == locked,
            final(self).registered(pid) <==> old(self).registered(pid),
            pid.0 != 0 ==> final(self).spec_pcb(pid) == (ProcessControlBlock {
                arch_info_locked: locked,
                ..old(self).spec_pcb(pid)
            }) && final(self).idles@ == old(self).idles@,
            pid.0 == 0 ==> final(self).same_registry(old(self)) && final(self).idles@
                == old(self).idles@.update(
                cpu as int,
                (ProcessControlBlock { arch_info_locked: locked, ..old(self).idles@[cpu as int] }),
            ),
            forall|q: Pid|
                q.0 != pid.0 ==> final(self).spec_find(q) == old(self).spec_find(q) && (final(self).registered(q) <==> old(self).registered(q)),
            final(self).initialized == old(self).initialized,
            final(self).n_cpus == old(self).n_cpus,
            final(self).next_pid == old(self).next_pid,
            final(self).current@ == old(self).current@,
            final(self).switch_results@ == old(self).switch_results@,
            final(self).irq_enabled@ == old(self).irq_enabled@,
    {
        let ghost pre = *self;
        if pid.0 == 0 {
            let p = &mut self.idles[cpu];
            p.arch_info_locked = locked;
        } else {
            let mut pcb = self.take_pcb(pid);
            pcb.arch_info_locked = locked;
            self.put_pcb(pcb);
            proof {
                Self::lemma_wf_after_put(pre, *self, pcb);
            }
        }
    }

    /// First phase of the context-switch lock protocol: take the
    /// architecture-info locks of the outgoing and incoming blocks, leak
    /// them across the asynchronous control-flow transfer, and record the
    /// pair for `cpu` so the other side can release them.
    pub fn prepare_switch(&mut self, cpu: usize, prev: Pid, next: Pid)
        requires
            old(self).wf(),
            cpu < old(self).n_cpus,
            prev.0 == 0 || old(self).registered(prev),
            next.0 == 0 || old(self).registered(next),
            prev != next,
            old(self).switch_results@[cpu as int].prev_pcb is None,
            old(self).switch_results@[cpu as int].next_pcb is None,
        ensures
            final(self).wf(),
            final(self).spec_arch_locked(cpu as int, prev),
            final(self).spec_arch_locked(cpu as int, next),
            final(self).switch_results@ == old(self).switch_results@.update(
                cpu as int,
                (SwitchResult { prev_pcb: Some(prev), next_pcb: Some(next) }),
            ),
            forall|q: Pid|
                q != prev && q != next && q.0 != 0 ==> final(self).spec_find(q) == old(self).spec_find(q) && (final(self).registered(q) <==> old(self).registered(q)),
            prev.0 != 0 ==> final(self).spec_pcb(prev) == (ProcessControlBlock {
                arch_info_locked: true,
                ..old(self).spec_pcb(prev)
            }),
            next.0 != 0 ==> final(self).spec_pcb(next) == (ProcessControlBlock {
                arch_info_locked: true,
                ..old(self).spec_pcb(next)
            }),
            prev.0 != 0 && next.0 != 0 ==> final(self).idles@ == old(self).idles@,
            final(self).initialized == old(self).initialized,
            final(self).n_cpus == old(self).n_cpus,
            final(self).next_pid == old(self).next_pid,
            final(self).current@ == old(self).current@,
            final(self).irq_enabled@ == old(self).irq_enabled@,
    {
        let e = &mut self.switch_results[cpu];
        *e = SwitchResult { prev_pcb: Some(prev), next_pcb: Some(next) };
        let ghost start = *self;
        self.set_arch_locked(cpu, prev, true);
        let ghost mid = *self;
        self.set_arch_locked(cpu, next, true);
        proof {
            assert(self.spec_find(prev) == mid.spec_find(prev));
            if prev.0 != 0 {
                assert(mid.spec_pcb(prev) == (ProcessControlBlock {
                    arch_info_locked: true,
                    ..start.spec_pcb(prev)
                }));
                assert(self.registered(prev) <==> mid.registered(prev));
                assert(self.spec_pcb(prev) == mid.spec_pcb(prev));
            }
        }
    }

    /// Second phase of the context-switch lock protocol, invoked right
    /// after the register-level switch lands on the new stack: release the
    /// two deliberately-leaked architecture-info locks and clear the
    /// pending record. A pending record must exist for `cpu`.
    pub fn switch_finish_hook(&mut self, cpu: usize)
        requires
            old(self).wf(),
            cpu < old(self).n_cpus,
            old(self).switch_results@[cpu as int].prev_pcb matches Some(p) && (p.0 == 0 || old(self).registered(p)),
            old(self).switch_results@[cpu as int].next_pcb matches Some(p) && (p.0 == 0 || old(self).registered(p)),
            old(self).switch_results@[cpu as int].prev_pcb != old(self).switch_results@[cpu as int].next_pcb,
        ensures
            final(self).wf(),
            !final(self).spec_arch_locked(
                cpu as int,
                old(self).switch_results@[cpu as int].prev_pcb.unwrap(),
            ),
            !final(self).spec_arch_locked(
                cpu as int,
                old(self).switch_results@[cpu as int].next_pcb.unwrap(),
            ),
            final(self).switch_results@ == old(self).switch_results@.update(
                cpu as int,
                (SwitchResult { prev_pcb: None, next_pcb: None }),
            ),
            forall|q: Pid|
                q != old(self).switch_results@[cpu as int].prev_pcb.unwrap() && q != old(self).switch_results@[cpu as int].next_pcb.unwrap() && q.0 != 0 ==> final(self).spec_find(q) == old(self).spec_find(q),
            final(self).initialized == old(self).initialized,
            final(self).n_cpus == old(self).n_cpus,
            final(self).next_pid == old(self).next_pid,
            final(self).current@ == old(self).current@,
            final(self).irq_enabled@ == old(self).irq_enabled@,
    {
        let prev = match self.switch_results[cpu].prev_pcb {
            Some(p) => p,
            None => Pid(0),
        };
        let next = match self.switch_results[cpu].next_pcb {
            Some(p) => p,
            None => Pid(0),
        };
        let e = &mut self.switch_results[cpu];
        *e = SwitchResult { prev_pcb: None, next_pcb: None };
        let ghost start = *self;
        self.set_arch_locked(cpu, prev, false);
        let ghost mid = *self;
        self.set_arch_locked(cpu, next, false);
        proof {
            assert(self.spec_find(prev) == mid.spec_find(prev));
            if prev.0 != 0 {
                assert(mid.spec_pcb(prev) == (ProcessControlBlock {
                    arch_info_locked: false,
                    ..start.spec_pcb(prev)
                }));
                assert(self.registered(prev) <==> mid.registered(prev));
                assert(self.spec_pcb(prev) == mid.spec_pcb(prev));
            }
        }
    }
}

/// Release the locks leaked across the context switch that just completed
/// on `cpu`: the entry point the architecture layer jumps to on the new
/// stack.
pub fn switch_finish_hook(pm: &mut ProcessManager, cpu: usize)
    requires
        old(pm).wf(),
        cpu < old(pm).n_cpus,
        old(pm).switch_results@[cpu as int].prev_pcb matches Some(p) && (p.0 == 0 || old(pm).registered(p)),
        old(pm).switch_results@[cpu as int].next_pcb matches Some(p) && (p.0 == 0 || old(pm).registered(p)),
        old(pm).switch_results@[cpu as int].prev_pcb != old(pm).switch_results@[cpu as int].next_pcb,
    ensures
        final(pm).wf(),
        !final(pm).spec_arch_locked(
            cpu as int,
            old(pm).switch_results@[cpu as int].prev_pcb.unwrap(),
        ),
        !final(pm).spec_arch_locked(
            cpu as int,
            old(pm).switch_results@[cpu as int].next_pcb.unwrap(),
        ),
        final(pm).switch_results@ == old(pm).switch_results@.update(
            cpu as int,
            (SwitchResult { prev_pcb: None, next_pcb: None }),
        ),
{
    pm.switch_finish_hook(cpu);
}

/// Whether `v` holds `p`.
pub fn contains_pid(v: &Vec<Pid>, p: Pid) -> (r: bool)
    ensures
        r == v@.contains(p),
{
    let mut i: usize = 0;
    while i < v.len()
        invariant
            0 <= i <= v@.len(),
            forall|j: int| 0 <= j < i ==> v@[j] != p,
        decreases v@.len() - i,
    {
        if v[i] == p {
            return true;
        }
        i = i + 1;
    }
    false
}

impl ProcessControlBlock {
    /// Create a process: allocate the next pid, inherit the process group,
    /// working directory and task group of the context executing on `cpu`,
    /// claim the kernel stack, and link the new pid into the parent's child
    /// list. The caller registers the block afterwards with `add_pcb`.
    pub fn new(
        pm: &mut ProcessManager,
        cpu: usize,
        name: String,
        kstack: crate::stack::KernelStack,
    ) -> (r: ProcessControlBlock)
        requires
            old(pm).wf(),
            old(pm).initialized,
            cpu < old(pm).n_cpus,
            old(pm).next_pid < usize::MAX,
            kstack.spec_pcb() is None,
            old(pm).next_pid > 1 ==> old(pm).current@[cpu as int].0 != 0,
        ensures
            spec_created_pcb(*old(pm), *final(pm), cpu as int, r, name, kstack),
    {
        Self::do_create_pcb(pm, cpu, name, kstack)
    }

    /// The workhorse behind process creation.
    fn do_create_pcb(
        pm: &mut ProcessManager,
        cpu: usize,
        name: String,
        kstack: crate::stack::KernelStack,
    ) -> (r: ProcessControlBlock)
        requires
            old(pm).wf(),
            old(pm).initialized,
            cpu < old(pm).n_cpus,
            old(pm).next_pid < usize::MAX,
            kstack.spec_pcb() is None,
            old(pm).next_pid > 1 ==> old(pm).current@[cpu as int].0 != 0,
        ensures
            spec_created_pcb(*old(pm), *final(pm), cpu as int, r, name, kstack),
    {
        let cur = pm.current_pcb(cpu);
        let pgid = cur.basic.pgid;
        let ppid = cur.pid;
        let cwd = cur.basic.cwd();
        let tg = cur.basic.sched_tg;
        let pid = Pid(pm.next_pid);
        pm.next_pid = pm.next_pid + 1;
        let parent_pid = if pm.find(ppid).is_some() {
            Some(ppid)
        } else {
            None
        };
        let basic = crate::basic::ProcessBasicInfo::new(pgid, ppid, name, cwd, None, tg);
        let mut kernel_stack = kstack;
        let _ = kernel_stack.set_pcb(pid);
        let pcb = ProcessControlBlock {
            pid,
            basic,
            preempt_count: 0,
            flags: crate::state::ProcessFlags::empty(),
            worker_private: None,
            kernel_stack,
            sched_info: crate::sched_info::ProcessSchedulerInfo::new(None),
            arch_info_locked: false,
            parent_pid,
            children: Vec::new(),
            wait_queue: Vec::new(),
            extern_refs: 0,
        };
        if pid.0 > 1 {
            let ghost before_parent = *pm;
            let mut par = pm.take_pcb(ppid);
            if !contains_pid(&par.children, pid) {
                let ghost oldkids = par.children@;
                par.children.push(pid);
                proof {
                    assert forall|i: int, j: int|
                        0 <= i < j < par.children@.len() implies par.children@[i]
                        != par.children@[j] by {
                        if j == par.children@.len() - 1 {
                            assert(par.children@[i] == oldkids[i]);
                            assert(oldkids.contains(oldkids[i]));
                        }
                    }
                }
            }
            pm.put_pcb(par);
            proof {
                ProcessManager::lemma_wf_after_put(before_parent, *pm, par);
            }
        }
        pcb
    }
}

/// What process creation does: `r` is the freshly built block for the next
/// pid, inheriting from the context executing on `cpu` of the manager
/// before the call, and the manager has advanced its allocator and linked
/// the new pid into the parent's child list (for pids above 1).
pub open spec fn spec_created_pcb(
    pre: ProcessManager,
    post: ProcessManager,
    cpu: int,
    r: ProcessControlBlock,
    name: String,
    kstack: crate::stack::KernelStack,
) -> bool {
    let cur = pre.spec_current_pcb(cpu);
    let parent = pre.current@[cpu];
    &&& r.pid == Pid(pre.next_pid)
    &&& post.next_pid == pre.next_pid + 1
    &&& r.basic.pgid == cur.basic.pgid
    &&& r.basic.ppid == cur.pid
    &&& r.basic.name@ == name@
    &&& r.basic.cwd@ == cur.basic.cwd@
    &&& r.basic.user_vm is None
    &&& (r.basic.fd_table matches Some(t) && t.files@.len() == 0)
    &&& r.basic.sched_tg == cur.basic.sched_tg
    &&& r.sched_info.on_cpu is None
    &&& r.sched_info.state == ProcessState::Blocked(false)
    &&& r.sched_info.virtual_runtime == 0
    &&& r.sched_info.rt_time_slice == 0
    &&& r.preempt_count == 0
    &&& r.flags == crate::state::ProcessFlags::spec_empty()
    &&& r.worker_private is None
    &&& r.kernel_stack.spec_pcb() == Some(r.pid)
    &&& r.kernel_stack.spec_start_address() == kstack.spec_start_address()
    &&& r.kernel_stack.wf() == kstack.wf()
    &&& r.arch_info_locked == false
    &&& r.parent_pid == (if pre.registered(cur.pid) {
        Some(cur.pid)
    } else {
        None::<Pid>
    })
    &&& r.children@.len() == 0
    &&& r.wait_queue@.len() == 0
    &&& r.extern_refs == 0
    &&& r.wf()
    &&& post.wf()
    &&& (r.pid.0 > 1 ==> {
        &&& post.spec_pcb(parent) == (ProcessControlBlock {
            children: post.spec_pcb(parent).children,
            ..pre.spec_pcb(parent)
        })
        &&& post.spec_pcb(parent).children@ == (if pre.spec_pcb(parent).children@.contains(r.pid) {
            pre.spec_pcb(parent).children@
        } else {
            pre.spec_pcb(parent).children@.push(r.pid)
        })
        &&& forall|q: Pid|
            q != parent ==> post.spec_find(q) == pre.spec_find(q) && (post.registered(q) <==>
            pre.registered(q))
    })
    &&& (r.pid.0 <= 1 ==> post.same_registry(&pre) && (forall|q: Pid|
        post.spec_find(q) == pre.spec_find(q)))
    &&& post.initialized == pre.initialized
    &&& post.n_cpus == pre.n_cpus
    &&& post.idles@ == pre.idles@
    &&& post.current@ == pre.current@
    &&& post.switch_results@ == pre.switch_results@
    &&& post.irq_enabled@ == pre.irq_enabled@
}


/// Pushing an element onto a pid sequence adds exactly that element to
/// what the sequence contains.
proof fn lemma_push_contains(s: Seq<Pid>, x: Pid)
    ensures
        forall|c: Pid| s.push(x).contains(c) <==> (s.contains(c) || c == x),
{
    assert forall|c: Pid| s.push(x).contains(c) <==> (s.contains(c) || c == x) by {
        if s.push(x).contains(c) {
            let k = choose|k: int| 0 <= k < s.push(x).len() && s.push(x)[k] == c;
            if k < s.len() {
                assert(s[k] == c);
            }
        }
        if s.contains(c) {
            let k = choose|k: int| 0 <= k < s.len() && s[k] == c;
            assert(s.push(x)[k] == c);
        }
        if c == x {
            assert(s.push(x)[s.len() as int] == c);
        }
    }
}

impl ProcessManager {
    /// Whether `exit` of process `cur` wakes the waiter `w`: a registered
    /// process other than the exiting one, found blocked interruptibly.
    pub open spec fn spec_exit_wakes(&self, cur: Pid, w: Pid) -> bool {
        &&& w.0 != 0
        &&& w != cur
        &&& self.registered(w)
        &&& self.spec_pcb(w).sched_info.state == ProcessState::Blocked(true)
    }

    /// The predicate selecting the waiters that `exit` of `cur` leaves on
    /// the wait queue.
    pub open spec fn spec_exit_keeps(self, cur: Pid) -> spec_fn(Pid) -> bool {
        |w: Pid| !self.spec_exit_wakes(cur, w)
    }

    /// Exit the process executing on `cpu` with the given code: its state
    /// becomes the absorbing `Exited(exit_code)`, every interruptibly
    /// blocked process on its wait queue is woken and enqueued, and — when
    /// the exiting process is not init — all of its children are handed to
    /// init's child list, leaving its own empty.
    ///
    /// The switch away from the exited context and the terminal spin are
    /// the architecture layer's part: after this call the caller invokes
    /// the scheduler and never runs this context again. Init's registration
    /// is a boot invariant and a precondition here: a missing adoption
    /// target would be an irrecoverable fault, not a reportable error.
    #[verifier::rlimit(100)]
    pub fn exit(&mut self, sched: &mut SchedulerCFS, cpu: usize, exit_code: usize)
        requires
            old(self).wf(),
            old(sched).wf(),
            old(self).initialized,
            cpu < old(self).n_cpus,
            old(self).current@[cpu as int].0 != 0,
            !old(self).spec_current_pcb(cpu as int).sched_info.state.spec_is_exited(),
            old(self).current@[cpu as int].0 != 1 ==> old(self).registered(Pid(1)),
            forall|i: int|
                0 <= i < old(self).spec_current_pcb(cpu as int).wait_queue@.len() ==> (old(self).spec_exit_wakes(
                    old(self).current@[cpu as int],
                    #[trigger] old(self).spec_current_pcb(cpu as int).wait_queue@[i],
                ) ==> {
                    let w = old(self).spec_current_pcb(cpu as int).wait_queue@[i];
                    &&& old(self).spec_pcb(w).sched_info.on_cpu is Some
                    &&& old(self).spec_pcb(w).sched_info.on_cpu.unwrap() < old(sched).cpu_queue@.len()
                }),
        ensures
            final(self).wf(),
            final(sched).wf(),
            final(sched).cpu_queue@.len() == old(sched).cpu_queue@.len(),
            spec_exited(*old(self), *final(self), old(self).current@[cpu as int], exit_code),
            (forall|i: int|
                0 <= i < old(self).spec_current_pcb(cpu as int).wait_queue@.len() ==> !old(self).spec_exit_wakes(
                    old(self).current@[cpu as int],
                    #[trigger] old(self).spec_current_pcb(cpu as int).wait_queue@[i],
                )) ==> *final(sched) == *old(sched),
            final(self).same_cpus_and_counter(old(self)),
    {
        let ghost pre = *self;
        let cur = self.current[cpu];
        let ghost wq = pre.spec_pcb(cur).wait_queue@;
        proof {
            assert(pre.spec_pcb(cur).wf());
        }

        let mut pcb = self.take_pcb(cur);
        pcb.sched_info.set_state(ProcessState::Exited(exit_code));
        let mut waiters: Vec<Pid> = Vec::new();
        mem::swap(&mut waiters, &mut pcb.wait_queue);
        self.put_pcb(pcb);
        proof {
            Self::lemma_wf_after_put(pre, *self, pcb);
        }
        let ghost base = *self;
        let ghost exited0 = pcb;

        let mut kept: Vec<Pid> = Vec::new();
        for i in 0..waiters.len()
            invariant
                self.wf(),
                sched.wf(),
                waiters@ == wq,
                base.wf(),
                base.registered(cur),
                cur.0 != 0,
                base.spec_find(cur) == Some(exited0),
                exited0.pid == cur,
                sched.cpu_queue@.len() == old(sched).cpu_queue@.len(),
                kept@ == wq.take(i as int).filter(pre.spec_exit_keeps(cur)),
                forall|j: int|
                    0 <= j < i && pre.spec_exit_wakes(cur, #[trigger] wq[j]) ==> self.registered(
                        wq[j],
                    ) && self.spec_pcb(wq[j]).sched_info.state == ProcessState::Runnable && self
                        .spec_pcb(wq[j]) == (ProcessControlBlock {
                        sched_info: self.spec_pcb(wq[j]).sched_info,
                        ..base.spec_pcb(wq[j])
                    }),
                forall|q: Pid|
                    !wq.take(i as int).contains(q) ==> self.spec_find(q) == base.spec_find(q) && (
                    self.registered(q) <==> base.registered(q)),
                forall|j: int|
                    0 <= j < i && !pre.spec_exit_wakes(cur, #[trigger] wq[j]) ==> self.spec_find(
                        wq[j],
                    ) == base.spec_find(wq[j]) && (self.registered(wq[j]) <==> base.registered(
                        wq[j],
                    )),
                forall|i2: int, j2: int| 0 <= i2 < j2 < wq.len() ==> wq[i2] != wq[j2],
                forall|j: int|
                    0 <= j < wq.len() ==> (pre.spec_exit_wakes(cur, #[trigger] wq[j]) ==> {
                        &&& pre.spec_pcb(wq[j]).sched_info.on_cpu is Some
                        &&& pre.spec_pcb(wq[j]).sched_info.on_cpu.unwrap() < old(sched).cpu_queue@.len()
                    }),
                forall|q: Pid| q != cur ==> pre.spec_find(q) == base.spec_find(q),
                (forall|j: int| 0 <= j < i ==> !pre.spec_exit_wakes(cur, #[trigger] wq[j]))
                    ==> *sched == *old(sched),
                self.same_cpus_and_counter(&base),
        {
            let w = waiters[i];
            proof {
                assert(wq[i as int] == w);
                assert(!wq.take(i as int).contains(w));
                assert(wq.take(i + 1).drop_last() =~= wq.take(i as int));
                assert(wq.take(i + 1).last() == w);
                reveal(Seq::filter);
            }
            proof {
                assert(self.spec_find(w) == base.spec_find(w));
                assert(self.registered(w) <==> base.registered(w));
                if w != cur {
                    assert(base.spec_find(w) == pre.spec_find(w));
                }
            }
            let eligible = if w.0 == 0 || w.0 == cur.0 {
                false
            } else {
                match self.find(w) {
                    Some(p) => p.sched_info.state.is_blocked() && match p.sched_info.state {
                        ProcessState::Blocked(inter) => inter,
                        _ => false,
                    },
                    None => false,
                }
            };
            proof {
                assert(eligible == pre.spec_exit_wakes(cur, w));
                assert(pre.spec_exit_keeps(cur)(w) == !pre.spec_exit_wakes(cur, w));
            }
            if eligible {
                let ghost snap = *self;
                proof {
                    assert(pre.spec_exit_wakes(cur, wq[i as int]));
                    assert(pre.spec_pcb(w).sched_info.on_cpu is Some);
                    assert(snap.spec_pcb(w) == pre.spec_pcb(w));
                }
                let mut wpcb = self.take_pcb(w);
                wpcb.sched_info.set_state(ProcessState::Runnable);
                sched.enqueue_reset_vruntime(&mut wpcb);
                self.put_pcb(wpcb);
                proof {
                    Self::lemma_wf_after_put(snap, *self, wpcb);
                    assert forall|q: Pid| !wq.take(i + 1).contains(q) implies self.spec_find(q)
                        == base.spec_find(q) && (self.registered(q) <==> base.registered(q)) by {
                        assert(q != w);
                        assert(!wq.take(i as int).contains(q));
                    }
                    assert forall|j: int|
                        0 <= j < i + 1 && pre.spec_exit_wakes(cur, #[trigger] wq[j]) implies self
                        .registered(wq[j]) && self.spec_pcb(wq[j]).sched_info.state
                        == ProcessState::Runnable && self.spec_pcb(wq[j]) == (ProcessControlBlock {
                        sched_info: self.spec_pcb(wq[j]).sched_info,
                        ..base.spec_pcb(wq[j])
                    }) by {
                        if j < i {
                            assert(wq[j] != w);
                            assert(self.spec_find(wq[j]) == snap.spec_find(wq[j]));
                        }
                    }
                    assert forall|j: int|
                        0 <= j < i + 1 && !pre.spec_exit_wakes(cur, #[trigger] wq[j]) implies self
                        .spec_find(wq[j]) == base.spec_find(wq[j]) && (self.registered(wq[j])
                        <==> base.registered(wq[j])) by {
                        assert(wq[j] != w);
                        assert(self.spec_find(wq[j]) == snap.spec_find(wq[j]));
                    }
                    assert(kept@ =~= wq.take(i + 1).filter(pre.spec_exit_keeps(cur)));
                }
            } else {
                kept.push(w);
                proof {
                    assert(kept@ =~= wq.take(i + 1).filter(pre.spec_exit_keeps(cur)));
                    assert forall|q: Pid| !wq.take(i + 1).contains(q) implies self.spec_find(q)
                        == base.spec_find(q) && (self.registered(q) <==> base.registered(q)) by {
                        assert(!wq.take(i as int).contains(q));
                    }
                }
            }
        }
        proof {
            assert(wq.take(wq.len() as int) =~= wq);
            assert(self.registered(cur) && self.spec_find(cur) == Some(exited0)) by {
                if wq.contains(cur) {
                    let j = choose|j: int| 0 <= j < wq.len() && wq[j] == cur;
                    assert(!pre.spec_exit_wakes(cur, wq[j]));
                } else {
                    assert(!wq.take(wq.len() as int).contains(cur));
                }
            }
        }

        let ghost before_wb = *self;
        proof {
            lemma_filter_distinct(wq, pre.spec_exit_keeps(cur));
        }
        let mut pcb2 = self.take_pcb(cur);
        pcb2.wait_queue = kept;
        self.put_pcb(pcb2);
        proof {
            Self::lemma_wf_after_put(before_wb, *self, pcb2);
        }

        if cur.0 != 1 {
            let ghost before_orphan = *self;
            let mut pcb3 = self.take_pcb(cur);
            let mut orphans: Vec<Pid> = Vec::new();
            mem::swap(&mut orphans, &mut pcb3.children);
            self.put_pcb(pcb3);
            proof {
                Self::lemma_wf_after_put(before_orphan, *self, pcb3);
            }
            let ghost before_init = *self;
            proof {
                assert(self.registered(Pid(1))) by {
                    assert(base.registered(Pid(1)));
                    if wq.contains(Pid(1)) {
                        let j = choose|j: int| 0 <= j < wq.len() && wq[j] == Pid(1);
                        if pre.spec_exit_wakes(cur, wq[j]) {
                            assert(before_wb.registered(Pid(1)));
                        } else {
                            assert(before_wb.registered(Pid(1)));
                        }
                    } else {
                        assert(!wq.take(wq.len() as int).contains(Pid(1)));
                        assert(before_wb.registered(Pid(1)));
                    }
                }
            }
            let mut init_pcb = self.take_pcb(Pid(1));
            let ghost kids0 = init_pcb.children@;
            proof {
                assert(before_init.spec_pcb(Pid(1)).wf());
            }

            // keep only the children init does not already record
            let mut fresh: Vec<Pid> = Vec::new();
            let mut k: usize = 0;
            while k < orphans.len()
                invariant
                    0 <= k <= orphans@.len(),
                    init_pcb.children@ == kids0,
                    fresh@ == orphans@.take(k as int).filter(not_in_seq(kids0)),
                decreases orphans@.len() - k,
            {
                proof {
                    reveal(Seq::filter);
                    assert(orphans@.take(k + 1).drop_last() =~= orphans@.take(k as int));
                    assert(orphans@.take(k + 1).last() == orphans@[k as int]);
                    assert(not_in_seq(kids0)(orphans@[k as int]) == !kids0.contains(
                        orphans@[k as int],
                    ));
                }
                if !contains_pid(&init_pcb.children, orphans[k]) {
                    fresh.push(orphans[k]);
                }
                k = k + 1;
            }
            proof {
                assert(orphans@.take(orphans@.len() as int) =~= orphans@);
            }
            let ghost freshv = fresh@;

            // append them, preserving distinctness
            proof {
                lemma_filter_distinct(orphans@, not_in_seq(kids0));
                orphans@.filter_lemma(not_in_seq(kids0));
            }
            let mut j: usize = 0;
            while j < fresh.len()
                invariant
                    0 <= j <= fresh@.len(),
                    fresh@ == freshv,
                    freshv == orphans@.filter(not_in_seq(kids0)),
                    init_pcb.children@ == kids0 + freshv.take(j as int),
                    init_pcb == (ProcessControlBlock {
                        children: init_pcb.children,
                        ..before_init.spec_pcb(Pid(1))
                    }),
                decreases fresh@.len() - j,
            {
                init_pcb.children.push(fresh[j]);
                proof {
                    assert(init_pcb.children@ =~= kids0 + freshv.take(j + 1));
                }
                j = j + 1;
            }
            proof {
                assert(freshv.take(freshv.len() as int) =~= freshv);
                assert(init_pcb.children@ == kids0 + orphans@.filter(not_in_seq(kids0)));
                lemma_concat_fresh_distinct(kids0, orphans@, init_pcb.children@);
                assert(init_pcb == (ProcessControlBlock {
                    children: init_pcb.children,
                    ..before_init.spec_pcb(Pid(1))
                }));
            }
            self.put_pcb(init_pcb);
            proof {
                ProcessManager::lemma_wf_after_put(before_init, *self, init_pcb);
            }
        }
        proof {
            let post = *self;
            let curp = pre.spec_pcb(cur);
            assert forall|w: Pid|
                curp.wait_queue@.contains(w) && pre.spec_exit_wakes(cur, w) implies post.registered(
                w,
            ) && post.spec_pcb(w).sched_info.state == ProcessState::Runnable by {
                let j = choose|j: int| 0 <= j < wq.len() && wq[j] == w;
                assert(pre.spec_exit_wakes(cur, wq[j]));
                assert(w != cur && w.0 != 0);
                assert(before_wb.registered(w) && before_wb.spec_pcb(w).sched_info.state
                    == ProcessState::Runnable);
                assert(post.spec_find(w) == before_wb.spec_find(w) || w.0 == 1);
                if w.0 == 1 && cur.0 != 1 {
                    assert(post.spec_pcb(Pid(1)).sched_info == before_wb.spec_pcb(
                        Pid(1),
                    ).sched_info);
                }
            }
            assert forall|q: Pid|
                q != cur && q.0 != 1 && !curp.wait_queue@.contains(q) implies post.spec_find(q)
                    == pre.spec_find(q) by {
                assert(!wq.contains(q));
                assert(!wq.take(wq.len() as int).contains(q));
                assert(base.spec_find(q) == pre.spec_find(q));
            }
        }
    }
}

/// What `exit` did to the registry: the exiting process `cur` is exited
/// with the given code, keeps only its unwoken waiters, has handed its
/// children to init (unless it is init), every interruptibly blocked
/// waiter is runnable, and every uninvolved process is untouched.
pub open spec fn spec_exited(
    pre: ProcessManager,
    post: ProcessManager,
    cur: Pid,
    exit_code: usize,
) -> bool {
    let curp = pre.spec_pcb(cur);
    &&& post.registered(cur)
    &&& post.spec_pcb(cur).sched_info == (crate::sched_info::ProcessSchedulerInfo {
        state: ProcessState::Exited(exit_code),
        ..curp.sched_info
    })
    &&& post.spec_pcb(cur).wait_queue@ == curp.wait_queue@.filter(pre.spec_exit_keeps(cur))
    &&& (cur.0 != 1 ==> post.spec_pcb(cur).children@.len() == 0)
    &&& (cur.0 == 1 ==> post.spec_pcb(cur).children@ == curp.children@)
    &&& post.spec_pcb(cur).basic == curp.basic
    &&& post.spec_pcb(cur).pid == cur
    &&& post.spec_pcb(cur).flags == curp.flags
    &&& post.spec_pcb(cur).extern_refs == curp.extern_refs
    &&& (forall|w: Pid|
        curp.wait_queue@.contains(w) && pre.spec_exit_wakes(cur, w) ==> post.registered(w)
            && post.spec_pcb(w).sched_info.state == ProcessState::Runnable)
    &&& (cur.0 != 1 && pre.registered(Pid(1)) ==> post.spec_pcb(Pid(1)).children@
        == pre.spec_pcb(Pid(1)).children@ + curp.children@.filter(
        not_in_seq(pre.spec_pcb(Pid(1)).children@),
    ))
    &&& (forall|q: Pid|
        q != cur && q.0 != 1 && !curp.wait_queue@.contains(q) ==> post.spec_find(q)
            == pre.spec_find(q))
}



impl ProcessManager {
    /// Clear the needs-reschedule flag of the context executing on `cpu`.
    pub(crate) fn clear_need_schedule(&mut self, cpu: usize)
        requires
            old(self).wf(),
            cpu < old(self).n_cpus,
        ensures
            final(self).wf(),
            final(self).spec_current_pcb(cpu as int) == (ProcessControlBlock {
                flags: old(self).spec_current_pcb(cpu as int).flags.spec_with(
                    ProcessFlag::NeedSchedule,
                    false,
                ),
                ..old(self).spec_current_pcb(cpu as int)
            }),
            old(self).current@[cpu as int].0 != 0 ==> final(self).idles@ == old(self).idles@,
            old(self).current@[cpu as int].0 == 0 ==> final(self).same_registry(old(self)) && (
            forall|j: int|
                0 <= j < old(self).n_cpus && j != cpu ==> final(self).idles@[j] == old(self).idles@[j]) && final(self).idles@.len() == old(self).idles@.len(),
            forall|q: Pid|
                q != old(self).current@[cpu as int] ==> final(self).spec_find(q) == old(self).spec_find(q) && (final(self).registered(q) <==> old(self).registered(q)),
            final(self).initialized == old(self).initialized,
            final(self).n_cpus == old(self).n_cpus,
            final(self).next_pid == old(self).next_pid,
            final(self).current@ == old(self).current@,
            final(self).switch_results@ == old(self).switch_results@,
            final(self).irq_enabled@ == old(self).irq_enabled@,
    {
        let ghost pre = *self;
        let pid = self.current[cpu];
        if pid.0 == 0 {
            let p = &mut self.idles[cpu];
            p.flags.remove(ProcessFlag::NeedSchedule);
        } else {
            let mut pcb = self.take_pcb(pid);
            pcb.flags.remove(ProcessFlag::NeedSchedule);
            self.put_pcb(pcb);
            proof {
                Self::lemma_wf_after_put(pre, *self, pcb);
            }
        }
    }
}

/// The predicate selecting the pids that `s` does not contain.
pub open spec fn not_in_seq(s: Seq<Pid>) -> spec_fn(Pid) -> bool {
    |x: Pid| !s.contains(x)
}

/// Appending to a duplicate-free pid sequence the elements of another
/// duplicate-free sequence that it does not contain keeps it duplicate-free.
proof fn lemma_concat_fresh_distinct(a: Seq<Pid>, b: Seq<Pid>, c: Seq<Pid>)
    requires
        forall|i: int, j: int| 0 <= i < j < a.len() ==> a[i] != a[j],
        forall|i: int, j: int| 0 <= i < j < b.len() ==> b[i] != b[j],
        c == a + b.filter(not_in_seq(a)),
    ensures
        forall|i: int, j: int| 0 <= i < j < c.len() ==> c[i] != c[j],
{
    let f = b.filter(not_in_seq(a));
    lemma_filter_distinct(b, not_in_seq(a));
    b.filter_lemma(not_in_seq(a));
    assert forall|i: int, j: int| 0 <= i < j < c.len() implies c[i] != c[j] by {
        if j < a.len() {
            assert(c[i] == a[i] && c[j] == a[j]);
        } else if i >= a.len() {
            assert(c[i] == f[i - a.len()] && c[j] == f[j - a.len()]);
        } else {
            assert(c[i] == a[i] && c[j] == f[j - a.len()]);
            assert(not_in_seq(a)(f[j - a.len()]));
            assert(a.contains(a[i]));
        }
    }
}

/// The predicate selecting every pid other than `p`.
pub open spec fn ne_pid(p: Pid) -> spec_fn(Pid) -> bool {
    |x: Pid| x != p
}

/// Remove every occurrence of `p` from `v`, keeping the order of the rest.
pub fn remove_pid_value(v: &mut Vec<Pid>, p: Pid)
    ensures
        final(v)@ == old(v)@.filter(ne_pid(p)),
{
    let mut kept: Vec<Pid> = Vec::new();
    for i in 0..v.len()
        invariant
            kept@ == old(v)@.take(i as int).filter(ne_pid(p)),
            v@ == old(v)@,
    {
        proof {
            reveal(Seq::filter);
            assert(old(v)@.take(i + 1).drop_last() =~= old(v)@.take(i as int));
            assert(old(v)@.take(i + 1).last() == old(v)@[i as int]);
            assert(ne_pid(p)(old(v)@[i as int]) == (old(v)@[i as int] != p));
        }
        if !(v[i].0 == p.0) {
            kept.push(v[i]);
        }
    }
    proof {
        assert(old(v)@.take(old(v)@.len() as int) =~= old(v)@);
    }
    *v = kept;
}

/// Every element of a filtered sequence occurs in the sequence.
proof fn lemma_filter_from(s: Seq<Pid>, pred: spec_fn(Pid) -> bool)
    ensures
        forall|i: int|
            0 <= i < s.filter(pred).len() ==> s.contains(#[trigger] s.filter(pred)[i]),
    decreases s.len(),
{
    reveal(Seq::filter);
    if s.len() > 0 {
        let rest = s.drop_last();
        lemma_filter_from(rest, pred);
        let f = s.filter(pred);
        let fr = rest.filter(pred);
        assert forall|i: int| 0 <= i < f.len() implies s.contains(#[trigger] f[i]) by {
            if pred(s.last()) && i == f.len() - 1 {
                assert(f[i] == s.last());
                assert(s[s.len() - 1] == s.last());
            } else {
                assert(f[i] == fr[i]);
                assert(rest.contains(fr[i]));
                let k = choose|k: int| 0 <= k < rest.len() && rest[k] == fr[i];
                assert(s[k] == fr[i]);
            }
        }
    }
}

/// Filtering keeps a duplicate-free pid sequence duplicate-free.
proof fn lemma_filter_distinct(s: Seq<Pid>, pred: spec_fn(Pid) -> bool)
    requires
        forall|i: int, j: int| 0 <= i < j < s.len() ==> s[i] != s[j],
    ensures
        forall|i: int, j: int|
            0 <= i < j < s.filter(pred).len() ==> s.filter(pred)[i] != s.filter(pred)[j],
    decreases s.len(),
{
    reveal(Seq::filter);
    if s.len() > 0 {
        let rest = s.drop_last();
        assert(forall|i: int, j: int| 0 <= i < j < rest.len() ==> rest[i] != rest[j]);
        lemma_filter_distinct(rest, pred);
        lemma_filter_from(rest, pred);
        let f = s.filter(pred);
        let fr = rest.filter(pred);
        if pred(s.last()) {
            assert(f == fr.push(s.last()));
            assert forall|i: int, j: int| 0 <= i < j < f.len() implies f[i] != f[j] by {
                if j == f.len() - 1 {
                    assert(f[j] == s.last());
                    assert(f[i] == fr[i]);
                    assert(rest.contains(fr[i]));
                    let k = choose|k: int| 0 <= k < rest.len() && rest[k] == fr[i];
                    assert(s[k] == rest[k]);
                    assert(s.last() == s[s.len() - 1]);
                } else {
                    assert(f[i] == fr[i] && f[j] == fr[j]);
                }
            }
        } else {
            assert(f == fr);
        }
    }
}



/// Once a block is destroyed — its last strong reference outside the
/// registry dropped and its entry reclaimed — a lookup of its pid returns
/// nothing: an unregistered pid never resolves.
pub proof fn lemma_find_after_destruction(pm: ProcessManager, p: Pid)
    requires
        !pm.registered(p),
    ensures
        pm.spec_find(p) is None,
{
}

/// Adoption moves every child: the list `exit` proves for init — init's
/// former children followed by the exiting process's children that init
/// did not already record — contains a pid exactly when init's former list
/// or the exiting process's list contained it, while the exiting process's
/// own list ends empty.
pub proof fn lemma_adoption_moves_every_child(init_kids: Seq<Pid>, orphans: Seq<Pid>, c: Pid)
    ensures
        (init_kids + orphans.filter(not_in_seq(init_kids))).contains(c) <==> (init_kids.contains(c)
            || orphans.contains(c)),
{
    let pred = not_in_seq(init_kids);
    let f = orphans.filter(pred);
    let cat = init_kids + f;
    orphans.filter_lemma(pred);
    lemma_filter_from(orphans, pred);
    if cat.contains(c) {
        let k = choose|k: int| 0 <= k < cat.len() && cat[k] == c;
        if k < init_kids.len() {
            assert(init_kids[k] == c);
        } else {
            assert(f[k - init_kids.len()] == c);
            assert(orphans.contains(f[k - init_kids.len()]));
        }
    }
    if init_kids.contains(c) {
        let k = choose|k: int| 0 <= k < init_kids.len() && init_kids[k] == c;
        assert(cat[k] == c);
    }
    if orphans.contains(c) && !init_kids.contains(c) {
        let k = choose|k: int| 0 <= k < orphans.len() && orphans[k] == c;
        assert(pred(orphans[k]) == !init_kids.contains(orphans[k]));
        assert(f.contains(orphans[k]));
        let j = choose|j: int| 0 <= j < f.len() && f[j] == c;
        assert(cat[init_kids.len() + j] == c);
    }
}

/// For every registered pid the registry lookup returns a block carrying
/// exactly that pid, and for an unregistered pid it returns nothing; with
/// `add_pcb` establishing registration and `release` ending it, a lookup
/// after an insertion yields the inserted block and a lookup after the
/// entry is reclaimed yields none.
pub proof fn lemma_find_returns_matching_pid(pm: ProcessManager, p: Pid)
    requires
        pm.wf(),
    ensures
        pm.registered(p) ==> pm.spec_find(p) == Some(pm.spec_pcb(p)) && pm.spec_pcb(p).pid == p,
        !pm.registered(p) ==> pm.spec_find(p) is None,
{
}

/// Exited is absorbing: for a process found exited, neither a wakeup nor a
/// declaration of sleep changes its state, no wakeup enqueues it, and it is
/// still exited afterwards — so every subsequent call fails the same way
/// (`wakeup` with an invalid-state error, `mark_sleep` with an
/// interrupted-call error, per their contracts).
pub proof fn lemma_exited_is_absorbing(s: ProcessState, interruptable: bool)
    requires
        s is Exited,
    ensures
        ProcessManager::spec_wakeup_state(s) == s,
        ProcessManager::spec_mark_sleep_state(s, interruptable) == s,
        ProcessManager::spec_wakeup_state(s).spec_is_exited(),
        ProcessManager::spec_mark_sleep_state(s, interruptable).spec_is_exited(),
        !ProcessManager::spec_wakeup_enqueues(s),
        !ProcessManager::spec_wakeup_ok(s),
        !ProcessManager::spec_mark_sleep_ok(s),
{
}

/// Waking an already-runnable process is idempotent: its state stays
/// runnable and nothing is enqueued; `wakeup`'s contract then leaves the
/// registry and every run queue untouched and still reports success.
pub proof fn lemma_wakeup_idempotent_on_runnable(s: ProcessState)
    requires
        s is Runnable,
    ensures
        ProcessManager::spec_wakeup_state(s) == s,
        !ProcessManager::spec_wakeup_enqueues(s),
{
}

/// Two wakeups produce at most one enqueue: whatever state a process was
/// found in, after one wakeup it is never blocked, so a second wakeup —
/// the two serialized by the scheduling-info lock and interrupt disabling —
/// enqueues nothing more.
pub proof fn lemma_second_wakeup_enqueues_nothing(s: ProcessState)
    ensures
        !ProcessManager::spec_wakeup_enqueues(ProcessManager::spec_wakeup_state(s)),
{
}

} // verus!
