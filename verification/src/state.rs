use vstd::prelude::*;

verus! {

/// The life-cycle state of a process.
///
/// Transitions only flow Runnable <-> Blocked and (Runnable | Blocked) -> Exited;
/// Exited is absorbing.
#[derive(Debug, Clone, Copy, PartialEq, Eq, Structural)]
pub enum ProcessState {
    /// The process is on a run queue or executing on a CPU.
    Runnable,
    /// The process is waiting for an event. The flag tells whether the wait
    /// may be interrupted by asynchronous wake sources (`true`) or only by an
    /// explicit wakeup (`false`).
    Blocked(bool),
    /// The process has exited with the given exit code. Terminal.
    Exited(usize),
}

impl ProcessState {
    pub open spec fn spec_is_runnable(&self) -> bool {
        self is Runnable
    }

    pub open spec fn spec_is_blocked(&self) -> bool {
        self is Blocked
    }

    pub open spec fn spec_is_exited(&self) -> bool {
        self is Exited
    }

    #[verifier::when_used_as_spec(spec_is_runnable)]
    pub fn is_runnable(&self) -> (r: bool)
        ensures
            r == self.spec_is_runnable(),
    {
        matches!(self, ProcessState::Runnable)
    }

    #[verifier::when_used_as_spec(spec_is_blocked)]
    pub fn is_blocked(&self) -> (r: bool)
        ensures
            r == self.spec_is_blocked(),
    {
        matches!(self, ProcessState::Blocked(_))
    }

    #[verifier::when_used_as_spec(spec_is_exited)]
    pub fn is_exited(&self) -> (r: bool)
        ensures
            r == self.spec_is_exited(),
    {
        matches!(self, ProcessState::Exited(_))
    }
}

/// One of the per-process flags.
#[derive(Debug, Clone, Copy, PartialEq, Eq, Structural)]
pub enum ProcessFlag {
    /// The process is a kernel thread.
    Kthread,
    /// The process must be rescheduled at the next safe preemption point.
    NeedSchedule,
    /// The process shares resources with its parent because of vfork.
    Vfork,
    /// The process cannot be frozen.
    Nofreeze,
    /// The process is exiting.
    Exiting,
    /// The process was woken by a terminating signal.
    Wakekill,
    /// The process was killed by a signal.
    Signaled,
    /// The process must migrate to another CPU.
    NeedMigrate,
}

/// The bitset of per-process flags, modelled with one field per flag.
#[derive(Debug, Clone, Copy, PartialEq, Eq, Structural)]
pub struct ProcessFlags {
    pub kthread: bool,
    pub need_schedule: bool,
    pub vfork: bool,
    pub nofreeze: bool,
    pub exiting: bool,
    pub wakekill: bool,
    pub signaled: bool,
    pub need_migrate: bool,
}

impl ProcessFlags {
    /// The empty flag set.
    pub fn empty() -> (r: Self)
        ensures
            r == Self::spec_empty(),
    {
        ProcessFlags {
            kthread: false,
            need_schedule: false,
            vfork: false,
            nofreeze: false,
            exiting: false,
            wakekill: false,
            signaled: false,
            need_migrate: false,
        }
    }

    pub open spec fn spec_empty() -> Self {
        ProcessFlags {
            kthread: false,
            need_schedule: false,
            vfork: false,
            nofreeze: false,
            exiting: false,
            wakekill: false,
            signaled: false,
            need_migrate: false,
        }
    }

    pub open spec fn spec_contains(&self, f: ProcessFlag) -> bool {
        match f {
            ProcessFlag::Kthread => self.kthread,
            ProcessFlag::NeedSchedule => self.need_schedule,
            ProcessFlag::Vfork => self.vfork,
            ProcessFlag::Nofreeze => self.nofreeze,
            ProcessFlag::Exiting => self.exiting,
            ProcessFlag::Wakekill => self.wakekill,
            ProcessFlag::Signaled => self.signaled,
            ProcessFlag::NeedMigrate => self.need_migrate,
        }
    }

    /// The flag set with `f` set to `b` and every other flag unchanged.
    pub open spec fn spec_with(&self, f: ProcessFlag, b: bool) -> Self {
        match f {
            ProcessFlag::Kthread => ProcessFlags { kthread: b, ..*self },
            ProcessFlag::NeedSchedule => ProcessFlags { need_schedule: b, ..*self },
            ProcessFlag::Vfork => ProcessFlags { vfork: b, ..*self },
            ProcessFlag::Nofreeze => ProcessFlags { nofreeze: b, ..*self },
            ProcessFlag::Exiting => ProcessFlags { exiting: b, ..*self },
            ProcessFlag::Wakekill => ProcessFlags { wakekill: b, ..*self },
            ProcessFlag::Signaled => ProcessFlags { signaled: b, ..*self },
            ProcessFlag::NeedMigrate => ProcessFlags { need_migrate: b, ..*self },
        }
    }

    #[verifier::when_used_as_spec(spec_contains)]
    pub fn contains(&self, f: ProcessFlag) -> (r: bool)
        ensures
            r == self.spec_contains(f),
    {
        match f {
            ProcessFlag::Kthread => self.kthread,
            ProcessFlag::NeedSchedule => self.need_schedule,
            ProcessFlag::Vfork => self.vfork,
            ProcessFlag::Nofreeze => self.nofreeze,
            ProcessFlag::Exiting => self.exiting,
            ProcessFlag::Wakekill => self.wakekill,
            ProcessFlag::Signaled => self.signaled,
            ProcessFlag::NeedMigrate => self.need_migrate,
        }
    }

    /// Set flag `f`.
    pub fn insert(&mut self, f: ProcessFlag)
        ensures
            *final(self) == old(self).spec_with(f, true),
    {
        match f {
            ProcessFlag::Kthread => self.kthread = true,
            ProcessFlag::NeedSchedule => self.need_schedule = true,
            ProcessFlag::Vfork => self.vfork = true,
            ProcessFlag::Nofreeze => self.nofreeze = true,
            ProcessFlag::Exiting => self.exiting = true,
            ProcessFlag::Wakekill => self.wakekill = true,
            ProcessFlag::Signaled => self.signaled = true,
            ProcessFlag::NeedMigrate => self.need_migrate = true,
        }
    }

    /// Clear flag `f`.
    pub fn remove(&mut self, f: ProcessFlag)
        ensures
            *final(self) == old(self).spec_with(f, false),
    {
        match f {
            ProcessFlag::Kthread => self.kthread = false,
            ProcessFlag::NeedSchedule => self.need_schedule = false,
            ProcessFlag::Vfork => self.vfork = false,
            ProcessFlag::Nofreeze => self.nofreeze = false,
            ProcessFlag::Exiting => self.exiting = false,
            ProcessFlag::Wakekill => self.wakekill = false,
            ProcessFlag::Signaled => self.signaled = false,
            ProcessFlag::NeedMigrate => self.need_migrate = false,
        }
    }
}

} // verus!
