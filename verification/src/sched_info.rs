use crate::state::ProcessState;
use vstd::prelude::*;

verus! {

/// The scheduling policy of a process. Only fair-share scheduling is
/// implemented in this core.
#[derive(Debug, Clone, Copy, PartialEq, Eq, Structural)]
pub enum SchedPolicy {
    CFS,
}

/// The largest valid scheduling priority value, exclusive.
pub const MAX_SCHED_PRIORITY: usize = 140;

/// A scheduling priority in the range `0 .. MAX_SCHED_PRIORITY`.
///
/// Priority-weighted virtual-runtime accrual is a stated open extension
/// point: the priority is carried but does not yet weight the accounting.
#[derive(Debug, Clone, Copy, PartialEq, Eq, Structural)]
pub struct SchedPriority {
    pub data: usize,
}

impl SchedPriority {
    pub open spec fn wf(&self) -> bool {
        self.data < MAX_SCHED_PRIORITY
    }

    /// A priority, if the value is in range.
    pub fn new(data: usize) -> (r: Option<Self>)
        ensures
            data < MAX_SCHED_PRIORITY <==> r == Some(SchedPriority { data }),
            data >= MAX_SCHED_PRIORITY <==> r is None,
    {
        if data < MAX_SCHED_PRIORITY {
            Some(SchedPriority { data })
        } else {
            None
        }
    }

    /// The default priority given to new processes and entities.
    pub fn default_priority() -> (r: Self)
        ensures
            r.data == 100,
            r.wf(),
    {
        SchedPriority { data: 100 }
    }
}

/// The scheduling-related information of one process.
///
/// In the running kernel these fields sit behind their own read/write lock,
/// distinct from the rest of the process control block, so that a scheduler
/// on another CPU can read them without contending on unrelated fields; the
/// model keeps them as one plainly-owned record.
#[derive(Debug, Clone, PartialEq, Eq, Structural)]
pub struct ProcessSchedulerInfo {
    /// The CPU the process is assigned to, or none.
    pub on_cpu: Option<u32>,
    /// The migration target CPU, if the needs-migration flag is raised.
    pub migrate_to: Option<u32>,
    /// The current life-cycle state.
    pub state: ProcessState,
    /// The scheduling policy.
    pub sched_policy: SchedPolicy,
    /// The scheduling priority.
    pub priority: SchedPriority,
    /// The accumulated virtual runtime, the fairness ordering key.
    pub virtual_runtime: i64,
    /// The remaining real-time-style time slice.
    pub rt_time_slice: i64,
}

impl ProcessSchedulerInfo {
    /// Fresh scheduling information: blocked (uninterruptible), fair-share
    /// policy, default priority, zero virtual runtime and time slice.
    pub fn new(on_cpu: Option<u32>) -> (r: Self)
        ensures
            r.on_cpu == on_cpu,
            r.migrate_to is None,
            r.state == ProcessState::Blocked(false),
            r.sched_policy == SchedPolicy::CFS,
            r.priority.data == 100,
            r.virtual_runtime == 0,
            r.rt_time_slice == 0,
    {
        ProcessSchedulerInfo {
            on_cpu,
            migrate_to: None,
            state: ProcessState::Blocked(false),
            sched_policy: SchedPolicy::CFS,
            priority: SchedPriority::default_priority(),
            virtual_runtime: 0,
            rt_time_slice: 0,
        }
    }

    pub fn on_cpu(&self) -> (r: Option<u32>)
        ensures
            r == self.on_cpu,
    {
        self.on_cpu
    }

    pub fn set_on_cpu(&mut self, on_cpu: Option<u32>)
        ensures
            *final(self) == (ProcessSchedulerInfo { on_cpu, ..*old(self) }),
    {
        self.on_cpu = on_cpu;
    }

    pub fn migrate_to(&self) -> (r: Option<u32>)
        ensures
            r == self.migrate_to,
    {
        self.migrate_to
    }

    pub fn set_migrate_to(&mut self, migrate_to: Option<u32>)
        ensures
            *final(self) == (ProcessSchedulerInfo { migrate_to, ..*old(self) }),
    {
        self.migrate_to = migrate_to;
    }

    pub fn state(&self) -> (r: ProcessState)
        ensures
            r == self.state,
    {
        self.state
    }

    pub(crate) fn set_state(&mut self, state: ProcessState)
        ensures
            *final(self) == (ProcessSchedulerInfo { state, ..*old(self) }),
    {
        self.state = state;
    }

    pub fn policy(&self) -> (r: SchedPolicy)
        ensures
            r == self.sched_policy,
    {
        self.sched_policy
    }

    pub fn virtual_runtime(&self) -> (r: i64)
        ensures
            r == self.virtual_runtime,
    {
        self.virtual_runtime
    }

    pub fn set_virtual_runtime(&mut self, virtual_runtime: i64)
        ensures
            *final(self) == (ProcessSchedulerInfo { virtual_runtime, ..*old(self) }),
    {
        self.virtual_runtime = virtual_runtime;
    }

    pub fn increase_virtual_runtime(&mut self, delta: i64)
        requires
            i64::MIN <= old(self).virtual_runtime + delta <= i64::MAX,
        ensures
            *final(self) == (ProcessSchedulerInfo {
                virtual_runtime: (old(self).virtual_runtime + delta) as i64,
                ..*old(self)
            }),
    {
        self.virtual_runtime = self.virtual_runtime + delta;
    }

    pub fn rt_time_slice(&self) -> (r: i64)
        ensures
            r == self.rt_time_slice,
    {
        self.rt_time_slice
    }

    pub fn set_rt_time_slice(&mut self, rt_time_slice: i64)
        ensures
            *final(self) == (ProcessSchedulerInfo { rt_time_slice, ..*old(self) }),
    {
        self.rt_time_slice = rt_time_slice;
    }

    pub fn increase_rt_time_slice(&mut self, delta: i64)
        requires
            i64::MIN <= old(self).rt_time_slice + delta <= i64::MAX,
        ensures
            *final(self) == (ProcessSchedulerInfo {
                rt_time_slice: (old(self).rt_time_slice + delta) as i64,
                ..*old(self)
            }),
    {
        self.rt_time_slice = self.rt_time_slice + delta;
    }

    pub fn priority(&self) -> (r: SchedPriority)
        ensures
            r == self.priority,
    {
        self.priority
    }
}

} // verus!
