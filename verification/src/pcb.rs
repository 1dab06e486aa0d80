use crate::basic::FileDescriptorVec;
use crate::pid::spec_decimal;
use crate::pid::usize_to_decimal;
use crate::basic::FileType;
use crate::basic::ProcessBasicInfo;
use crate::basic::SocketHandle;
use crate::pid::Pid;
use crate::sched_info::ProcessSchedulerInfo;
use crate::stack::KernelStack;
use crate::state::ProcessFlags;
use vstd::prelude::*;

verus! {

/// The kernel's record of one execution context: identity, basic info,
/// scheduling info, flags, kernel stack, family links, and wait queue.
///
/// Ownership is modelled around the process manager's registry: the registry
/// owns every live process control block; family links and wait queues hold
/// pids, non-owning relations resolved by lookup; and `extern_refs` counts
/// the strong references held outside the registry — the handles other
/// kernel subsystems keep. A block is destroyed only when that count
/// returns to zero, at which point the registry entry is removed.
#[derive(Debug)]
pub struct ProcessControlBlock {
    /// The process identity.
    pub pid: Pid,
    /// Basic, rarely-changing information.
    pub basic: ProcessBasicInfo,
    /// The preemption-disable nesting counter.
    pub preempt_count: usize,
    /// The per-process flags.
    pub flags: ProcessFlags,
    /// The kernel-thread-private payload, carried as a plain token.
    pub worker_private: Option<usize>,
    /// The owned kernel stack; its owner slot points back at this block.
    pub kernel_stack: KernelStack,
    /// The scheduling-related information.
    pub sched_info: ProcessSchedulerInfo,
    /// Whether the architecture-info lock is held, for the two-phase
    /// context-switch protocol.
    pub arch_info_locked: bool,
    /// The parent process, as a non-owning pid; resolved by registry lookup.
    pub parent_pid: Option<Pid>,
    /// The child processes, by pid, without duplicates.
    pub children: Vec<Pid>,
    /// The pids of processes waiting on this process's wait queue,
    /// without duplicates.
    pub wait_queue: Vec<Pid>,
    /// Strong references held outside the registry's own entry.
    pub extern_refs: usize,
}

impl ProcessControlBlock {
    /// Neither the child list nor the wait queue holds a pid twice.
    pub open spec fn wf(&self) -> bool {
        &&& forall|i: int, j: int|
            0 <= i < j < self.children@.len() ==> self.children@[i] != self.children@[j]
        &&& forall|i: int, j: int|
            0 <= i < j < self.wait_queue@.len() ==> self.wait_queue@[i] != self.wait_queue@[j]
    }

    /// Whether `p` is recorded as a child.
    pub open spec fn spec_has_child(&self, p: Pid) -> bool {
        self.children@.contains(p)
    }

    pub fn pid(&self) -> (r: Pid)
        ensures
            r == self.pid,
    {
        self.pid
    }

    pub fn preempt_count(&self) -> (r: usize)
        ensures
            r == self.preempt_count,
    {
        self.preempt_count
    }

    /// Raise the preemption-disable counter by one.
    pub fn preempt_disable(&mut self)
        requires
            old(self).preempt_count < usize::MAX,
        ensures
            *final(self) == (ProcessControlBlock {
                preempt_count: (old(self).preempt_count + 1) as usize,
                ..*old(self)
            }),
    {
        self.preempt_count = self.preempt_count + 1;
    }

    /// Lower the preemption-disable counter by one.
    pub fn preempt_enable(&mut self)
        requires
            old(self).preempt_count > 0,
        ensures
            *final(self) == (ProcessControlBlock {
                preempt_count: (old(self).preempt_count - 1) as usize,
                ..*old(self)
            }),
    {
        self.preempt_count = self.preempt_count - 1;
    }

    pub fn set_preempt_count(&mut self, count: usize)
        ensures
            *final(self) == (ProcessControlBlock { preempt_count: count, ..*old(self) }),
    {
        self.preempt_count = count;
    }

    pub fn flags(&self) -> (r: ProcessFlags)
        ensures
            r == self.flags,
    {
        self.flags
    }

    pub fn basic(&self) -> (r: &ProcessBasicInfo)
        ensures
            *r == self.basic,
    {
        &self.basic
    }

    pub fn basic_mut(&mut self) -> (r: &mut ProcessBasicInfo)
        ensures
            *r == old(self).basic,
            *final(self) == (ProcessControlBlock { basic: *final(r), ..*old(self) }),
    {
        &mut self.basic
    }

    pub fn set_name(&mut self, name: String)
        ensures
            *final(self) == (ProcessControlBlock {
                basic: ProcessBasicInfo { name, ..old(self).basic },
                ..*old(self)
            }),
    {
        self.basic.set_name(name);
    }

    pub fn kernel_stack(&self) -> (r: &KernelStack)
        ensures
            *r == self.kernel_stack,
    {
        &self.kernel_stack
    }

    pub fn kernel_stack_mut(&mut self) -> (r: &mut KernelStack)
        ensures
            *r == old(self).kernel_stack,
            *final(self) == (ProcessControlBlock { kernel_stack: *final(r), ..*old(self) }),
    {
        &mut self.kernel_stack
    }

    pub fn sched_info(&self) -> (r: &ProcessSchedulerInfo)
        ensures
            *r == self.sched_info,
    {
        &self.sched_info
    }

    pub fn sched_info_mut(&mut self) -> (r: &mut ProcessSchedulerInfo)
        ensures
            *r == old(self).sched_info,
            *final(self) == (ProcessControlBlock { sched_info: *final(r), ..*old(self) }),
    {
        &mut self.sched_info
    }

    pub fn worker_private(&self) -> (r: Option<usize>)
        ensures
            r == self.worker_private,
    {
        self.worker_private
    }

    /// The file-descriptor table. The caller must know one is installed.
    pub fn fd_table(&self) -> (r: &FileDescriptorVec)
        requires
            self.basic.fd_table is Some,
        ensures
            Some(*r) == self.basic.fd_table,
    {
        self.basic.fd_table.as_ref().unwrap()
    }

    /// Resolve descriptor `fd` and hand back a socket handle if, and only
    /// if, the descriptor names a socket.
    pub fn get_socket(&self, fd: i32) -> (r: Option<SocketHandle>)
        requires
            self.basic.fd_table is Some,
        ensures
            r == (if self.spec_fd_is_socket(fd) {
                Some(SocketHandle(fd as usize))
            } else {
                None::<SocketHandle>
            }),
    {
        let table = self.fd_table();
        let f = table.get_file_by_fd(fd);
        match f {
            Some(FileType::Socket) => Some(SocketHandle(fd as usize)),
            _ => None,
        }
    }

    /// Whether descriptor `fd` resolves to a socket.
    pub open spec fn spec_fd_is_socket(&self, fd: i32) -> bool {
        &&& self.basic.fd_table is Some
        &&& 0 <= fd < self.basic.fd_table.unwrap().files@.len()
        &&& self.basic.fd_table.unwrap().files@[fd as int] == Some(FileType::Socket)
    }

    /// The display name generated for a program: its arguments joined,
    /// each followed by one space.
    pub fn generate_name(_program_path: &str, args: &Vec<String>) -> (r: String)
        ensures
            r@ == spec_joined_args(args@.map_values(|a: String| a@)),
    {
        let mut name = String::new();
        let ghost views = args@.map_values(|a: String| a@);
        for i in 0..args.len()
            invariant
                name@ == spec_joined_args(views.take(i as int)),
                views.len() == args@.len(),
                forall|j: int| 0 <= j < args@.len() ==> views[j] == args@[j]@,
        {
            name.append(args[i].as_str());
            name.append(" ");
            proof {
                reveal_strlit(" ");
                assert(views.take(i + 1).drop_last() =~= views.take(i as int));
                assert(views.take(i + 1).last() == views[i as int]);
                assert(name@ =~= spec_joined_args(views.take(i + 1)));
            }
        }
        proof {
            assert(views.take(args@.len() as int) =~= views);
        }
        name
    }
}

/// The argument views joined, each followed by one space.
pub open spec fn spec_joined_args(args: Seq<Seq<char>>) -> Seq<char>
    decreases args.len(),
{
    if args.len() == 0 {
        Seq::empty()
    } else {
        spec_joined_args(args.drop_last()) + args.last() + seq![' ']
    }
}


/// The display name of the idle process of one CPU.
pub open spec fn spec_idle_name(cpu_id: nat) -> Seq<char> {
    "idle-"@ + spec_decimal(cpu_id)
}

impl ProcessControlBlock {
    /// Build one CPU's reserved idle process: pid 0, its own parent, the
    /// root working directory, and fresh scheduling information. Only the
    /// boot path constructs these, one per CPU, before anything else runs.
    pub fn new_idle(cpu_id: u32, kstack: KernelStack) -> (r: Self)
        requires
            kstack.spec_pcb() is None,
        ensures
            r.pid == Pid(0),
            r.basic.pgid == Pid(0),
            r.basic.ppid == Pid(0),
            r.basic.name@ == spec_idle_name(cpu_id as nat),
            r.basic.cwd@ == "/"@,
            r.basic.user_vm is None,
            r.basic.sched_tg is None,
            r.sched_info.on_cpu is None,
            r.sched_info.migrate_to is None,
            r.sched_info.state == crate::state::ProcessState::Blocked(false),
            r.sched_info.virtual_runtime == 0,
            r.sched_info.rt_time_slice == 0,
            r.preempt_count == 0,
            r.flags == ProcessFlags::spec_empty(),
            r.worker_private is None,
            r.kernel_stack.spec_pcb() == Some(Pid(0)),
            r.arch_info_locked == false,
            r.parent_pid is None,
            r.children@.len() == 0,
            r.wait_queue@.len() == 0,
            r.extern_refs == 0,
            r.wf(),
    {
        let mut name = String::from_str("idle-");
        let digits = usize_to_decimal(cpu_id as usize);
        name.append(digits.as_str());
        let basic = ProcessBasicInfo::new(
            Pid(0),
            Pid(0),
            name,
            String::from_str("/"),
            None,
            None,
        );
        let mut kernel_stack = kstack;
        let _ = kernel_stack.set_pcb(Pid(0));
        ProcessControlBlock {
            pid: Pid(0),
            basic,
            preempt_count: 0,
            flags: ProcessFlags::empty(),
            worker_private: None,
            kernel_stack,
            sched_info: crate::sched_info::ProcessSchedulerInfo::new(None),
            arch_info_locked: false,
            parent_pid: None,
            children: Vec::new(),
            wait_queue: Vec::new(),
            extern_refs: 0,
        }
    }
}

} // verus!
