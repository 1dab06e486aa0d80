//! A verified model of a multiprocessor kernel's process-control and
//! CPU-scheduling core: process control blocks and their life cycle,
//! per-CPU fair-share run queues ordered by virtual runtime, hierarchical
//! task groups, and the process-wide registries that tie them together.

pub mod basic;
pub mod cfs;
pub mod error;
pub mod group;
pub mod manager;
pub mod pcb;
pub mod pid;
pub mod pid_map;
pub mod sched_info;
pub mod stack;
pub mod state;

pub use basic::AddressSpaceHandle;
pub use basic::FileDescriptorVec;
pub use basic::FileType;
pub use basic::ProcessBasicInfo;
pub use basic::SocketHandle;
pub use cfs::CFSQueue;
pub use cfs::SchedEntity;
pub use cfs::SchedEntityKind;
pub use cfs::SchedulerCFS;
pub use cfs::sched_cfs_init;
pub use error::SystemError;
pub use group::ProcessGroupManager;
pub use group::TaskGroup;
pub use manager::ProcessManager;
pub use manager::SwitchResult;
pub use manager::process_init;
pub use manager::switch_finish_hook;
pub use pcb::ProcessControlBlock;
pub use pid::Pid;
pub use sched_info::ProcessSchedulerInfo;
pub use sched_info::SchedPolicy;
pub use sched_info::SchedPriority;
pub use stack::KernelStack;
pub use stack::VirtAddr;
pub use state::ProcessFlag;
pub use state::ProcessFlags;
pub use state::ProcessState;
